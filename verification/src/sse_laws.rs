//! What reading a chunk of server-sent events gives, stated in terms of the
//! chunk's lines and what serde_json finds in its payloads.

use vstd::prelude::*;

use crate::sse::{
    content_pointer, data_prefix, done_marker, first_nonempty, first_token, json_string_at,
    payloads,
};
use crate::text::{line_scan, lines, strip_leading, without_trailing_cr};

verus! {

/// Whether `found[j]` is a text that is there and not empty.
pub open spec fn usable(found: Seq<Option<Seq<char>>>, j: int) -> bool {
    found[j] is Some && found[j]->0.len() > 0
}

/// The first usable text is the one kept, whatever characters it holds: when
/// `found[i]` is a non-empty text and none before it is, the result is that
/// text.
pub proof fn first_usable_text_is_kept(found: Seq<Option<Seq<char>>>, i: int)
    requires
        0 <= i < found.len(),
        usable(found, i),
        forall|j: int| 0 <= j < i ==> !#[trigger] usable(found, j),
    ensures
        first_nonempty(found) == found[i],
    decreases i,
{
    if i > 0 {
        let rest = found.drop_first();
        assert(!usable(found, 0));
        assert forall|j: int| 0 <= j < i - 1 implies !#[trigger] usable(rest, j) by {
            assert(!usable(found, j + 1));
        }
        first_usable_text_is_kept(rest, i - 1);
    }
}

/// When no text is usable, nothing is kept; whatever is kept is a non-empty
/// text that was found.
pub proof fn kept_text_was_found(found: Seq<Option<Seq<char>>>)
    ensures
        (forall|j: int| 0 <= j < found.len() ==> !#[trigger] usable(found, j)) ==> first_nonempty(
            found,
        ) is None,
        first_nonempty(found) matches Some(text) ==> text.len() > 0 && exists|j: int|
            0 <= j < found.len() && #[trigger] found[j] == Some(text),
    decreases found.len(),
{
    if found.len() > 0 {
        let rest = found.drop_first();
        kept_text_was_found(rest);
        if forall|j: int| 0 <= j < found.len() ==> !#[trigger] usable(found, j) {
            assert(!usable(found, 0));
            assert forall|j: int| 0 <= j < rest.len() implies !#[trigger] usable(rest, j) by {
                assert(!usable(found, j + 1));
            }
        }
        if !usable(found, 0) {
            if first_nonempty(found) is Some {
                let text = first_nonempty(found)->0;
                let j = choose|j: int| 0 <= j < rest.len() && #[trigger] rest[j] == Some(text);
                assert(found[j + 1] == Some(text));
            }
        } else {
            assert(found[0] == first_nonempty(found));
        }
    }
}

/// Whether `s` holds no line feed and no carriage return.
pub open spec fn single_line(s: Seq<char>) -> bool {
    forall|k: int| 0 <= k < s.len() ==> #[trigger] s[k] != '\n' && s[k] != '\r'
}

proof fn scan_without_line_feed(a: Seq<char>)
    requires
        forall|k: int| 0 <= k < a.len() ==> #[trigger] a[k] != '\n',
    ensures
        line_scan(a) == (Seq::<Seq<char>>::empty(), a),
    decreases a.len(),
{
    if a.len() > 0 {
        scan_without_line_feed(a.drop_last());
        assert(a.drop_last().push(a.last()) =~= a);
    }
}

proof fn scan_after_line_end(x: Seq<char>, rest: Seq<char>)
    requires
        line_scan(x).1.len() == 0,
    ensures
        line_scan(x + rest) == (line_scan(x).0 + line_scan(rest).0, line_scan(rest).1),
    decreases rest.len(),
{
    if rest.len() == 0 {
        assert(x + rest =~= x);
        assert(line_scan(x).0 + Seq::<Seq<char>>::empty() =~= line_scan(x).0);
    } else {
        scan_after_line_end(x, rest.drop_last());
        assert((x + rest).drop_last() =~= x + rest.drop_last());
        assert((x + rest).last() == rest.last());
        let (d, p) = line_scan(rest.drop_last());
        if rest.last() == '\n' {
            assert((line_scan(x).0 + d).push(without_trailing_cr(p)) =~= line_scan(x).0 + d.push(
                without_trailing_cr(p),
            ));
        }
    }
}

proof fn payloads_concat(a: Seq<Seq<char>>, b: Seq<Seq<char>>)
    ensures
        payloads(a + b) == payloads(a) + payloads(b),
    decreases b.len(),
{
    if b.len() == 0 {
        assert(a + b =~= a);
        assert(payloads(a) + payloads(b) =~= payloads(a));
    } else {
        payloads_concat(a, b.drop_last());
        assert((a + b).drop_last() =~= a + b.drop_last());
        assert((a + b).last() == b.last());
        assert(payloads(a + b) =~= payloads(a) + payloads(b));
    }
}

/// The lines of a chunk whose first line is `line`: that line, then the lines
/// of what follows the line feed after it, or nothing when no line feed
/// follows.
proof fn first_line_of(line: Seq<char>, tail: Seq<char>)
    requires
        line.len() > 0,
        single_line(line),
        tail.len() == 0 || tail[0] == '\n',
    ensures
        lines(line + tail) == seq![line] + if tail.len() == 0 {
            Seq::<Seq<char>>::empty()
        } else {
            lines(tail.drop_first())
        },
{
    scan_without_line_feed(line);
    if tail.len() == 0 {
        assert(line + tail =~= line);
        assert(seq![line] + Seq::<Seq<char>>::empty() =~= seq![line]);
        assert(lines(line) =~= Seq::<Seq<char>>::empty().push(line));
    } else {
        let head = line.push('\n');
        assert(head.drop_last() =~= line);
        assert(without_trailing_cr(line) == line);
        assert(line_scan(head) == (seq![line], Seq::<char>::empty()));
        assert(line + tail =~= head + tail.drop_first());
        scan_after_line_end(head, tail.drop_first());
        let (d, p) = line_scan(tail.drop_first());
        if p.len() > 0 {
            assert((seq![line] + d).push(p) =~= seq![line] + d.push(p));
        }
    }
}

/// The payload of a data line is what follows its marker, when that is not
/// itself a marker or the end-of-stream marker.
proof fn payload_of_data_line(p: Seq<char>)
    requires
        !data_prefix().is_prefix_of(p),
        p != done_marker(),
    ensures
        payloads(seq![data_prefix() + p]) == seq![p],
{
    let line = data_prefix() + p;
    assert(line.subrange(0, data_prefix().len() as int) =~= data_prefix());
    assert(line.skip(data_prefix().len() as int) =~= p);
    reveal_strlit("data: ");
    assert(data_prefix().len() > 0);
    assert(strip_leading(line, data_prefix()) == strip_leading(p, data_prefix()));
    assert(seq![line].drop_last() =~= Seq::<Seq<char>>::empty());
    assert(seq![line].last() == line);
    assert(payloads(Seq::<Seq<char>>::empty()) =~= Seq::<Seq<char>>::empty());
    assert(Seq::<Seq<char>>::empty().push(p) =~= seq![p]);
}

/// A chunk that starts with one data line (`data: ` and a payload `p` on one
/// line) yields the string `s` that `p` holds at the content pointer, whatever
/// characters `s` holds, as long as it is not empty, and whatever follows the
/// line.
pub proof fn first_data_line_yields_its_text(p: Seq<char>, tail: Seq<char>, s: Seq<char>)
    requires
        single_line(p),
        !data_prefix().is_prefix_of(p),
        p != done_marker(),
        json_string_at(p, content_pointer()) == Some(s),
        s.len() > 0,
        tail.len() == 0 || tail[0] == '\n',
    ensures
        first_token(payloads(lines(data_prefix() + p + tail))) == Some(s),
{
    reveal_strlit("data: ");
    let line = data_prefix() + p;
    assert(single_line(line)) by {
        assert forall|k: int| 0 <= k < line.len() implies #[trigger] line[k] != '\n' && line[k]
            != '\r' by {
            if k >= data_prefix().len() {
                assert(line[k] == p[k - data_prefix().len()]);
            }
        }
    }
    first_line_of(line, tail);
    let later = if tail.len() == 0 {
        Seq::<Seq<char>>::empty()
    } else {
        lines(tail.drop_first())
    };
    payloads_concat(seq![line], later);
    payload_of_data_line(p);
    let all = seq![p] + payloads(later);
    let found = all.map_values(|payload: Seq<char>| json_string_at(payload, content_pointer()));
    assert(found[0] == Some(s));
    assert(usable(found, 0));
    first_usable_text_is_kept(found, 0);
}

/// The end-of-stream marker and lines that are not data lines carry no
/// payload.
pub proof fn other_lines_carry_nothing(line: Seq<char>)
    ensures
        !data_prefix().is_prefix_of(line) ==> payloads(seq![line]).len() == 0,
        payloads(seq![data_prefix() + done_marker()]).len() == 0,
{
    reveal_strlit("data: ");
    reveal_strlit("[DONE]");
    assert(payloads(Seq::<Seq<char>>::empty()) =~= Seq::<Seq<char>>::empty());
    assert(seq![line].drop_last() =~= Seq::<Seq<char>>::empty());
    assert(seq![line].last() == line);
    let done_line = data_prefix() + done_marker();
    assert(seq![done_line].drop_last() =~= Seq::<Seq<char>>::empty());
    assert(seq![done_line].last() == done_line);
    assert(done_line.subrange(0, data_prefix().len() as int) =~= data_prefix());
    assert(done_line.skip(data_prefix().len() as int) =~= done_marker());
    assert(!data_prefix().is_prefix_of(done_marker())) by {
        assert(done_marker()[0] != data_prefix()[0]);
    }
    assert(strip_leading(done_line, data_prefix()) == strip_leading(done_marker(), data_prefix()));
}

} // verus!

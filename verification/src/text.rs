//! Comparing, trimming and joining text.

use vstd::prelude::*;
use vstd::string::{StrSliceExecFns, StringExecFns};

verus! {

/// `text` without the `unwanted` characters that it starts with.
pub open spec fn trimmed_start(text: Seq<char>, unwanted: char) -> Seq<char>
    decreases text.len(),
{
    if text.len() > 0 && text.first() == unwanted {
        trimmed_start(text.drop_first(), unwanted)
    } else {
        text
    }
}

/// `text` without the `unwanted` characters that it ends with.
pub open spec fn trimmed_end(text: Seq<char>, unwanted: char) -> Seq<char>
    decreases text.len(),
{
    if text.len() > 0 && text.last() == unwanted {
        trimmed_end(text.drop_last(), unwanted)
    } else {
        text
    }
}

/// `text` without the `unwanted` characters at either end of it.
pub open spec fn trimmed(text: Seq<char>, unwanted: char) -> Seq<char> {
    trimmed_end(trimmed_start(text, unwanted), unwanted)
}

/// `count` times the character `c`.
pub open spec fn run(c: char, count: nat) -> Seq<char> {
    Seq::new(count, |i: int| c)
}

/// Trimming the start takes off a run of the unwanted character and leaves
/// text that does not start with it.
pub proof fn law_trimmed_start(text: Seq<char>, unwanted: char)
    ensures
        ({
            let kept = trimmed_start(text, unwanted);
            &&& kept.len() <= text.len()
            &&& text == run(unwanted, (text.len() - kept.len()) as nat) + kept
            &&& kept.len() > 0 ==> kept.first() != unwanted
        }),
    decreases text.len(),
{
    if text.len() > 0 && text.first() == unwanted {
        law_trimmed_start(text.drop_first(), unwanted);
        let kept = trimmed_start(text, unwanted);
        let rest = text.drop_first();
        assert(text =~= seq![unwanted] + rest);
        assert(seq![unwanted] + run(unwanted, (rest.len() - kept.len()) as nat) =~= run(
            unwanted,
            (text.len() - kept.len()) as nat,
        ));
        assert(text =~= run(unwanted, (text.len() - kept.len()) as nat) + kept);
    } else {
        assert(text =~= run(unwanted, 0) + text);
    }
}

/// Trimming the end takes off a run of the unwanted character and leaves text
/// that does not end with it.
pub proof fn law_trimmed_end(text: Seq<char>, unwanted: char)
    ensures
        ({
            let kept = trimmed_end(text, unwanted);
            &&& kept.len() <= text.len()
            &&& text == kept + run(unwanted, (text.len() - kept.len()) as nat)
            &&& kept.len() > 0 ==> kept.last() != unwanted
        }),
    decreases text.len(),
{
    if text.len() > 0 && text.last() == unwanted {
        law_trimmed_end(text.drop_last(), unwanted);
        let kept = trimmed_end(text, unwanted);
        let rest = text.drop_last();
        assert(text =~= rest + seq![unwanted]);
        assert(text =~= kept + run(unwanted, (text.len() - kept.len()) as nat));
    } else {
        assert(text =~= text + run(unwanted, 0));
    }
}

/// Trimmed text neither starts nor ends with the unwanted character, and
/// what was taken off on either side is a run of that character.
pub proof fn law_trimmed(text: Seq<char>, unwanted: char)
    ensures
        ({
            let kept = trimmed(text, unwanted);
            &&& kept.len() > 0 ==> kept.first() != unwanted && kept.last() != unwanted
            &&& exists|before: nat, after: nat|
                text == #[trigger] run(unwanted, before) + kept + #[trigger] run(unwanted, after)
        }),
{
    let start = trimmed_start(text, unwanted);
    let kept = trimmed(text, unwanted);
    law_trimmed_start(text, unwanted);
    law_trimmed_end(start, unwanted);
    let before = (text.len() - start.len()) as nat;
    let after = (start.len() - kept.len()) as nat;
    if kept.len() > 0 {
        assert(kept.first() == start.first());
    }
    assert(text =~= run(unwanted, before) + kept + run(unwanted, after));
}

/// Text that neither starts nor ends with the unwanted character is what
/// trimming leaves of it, with any run of that character put on either side.
pub proof fn law_trimmed_undoes_padding(text: Seq<char>, unwanted: char, before: nat, after: nat)
    requires
        text.len() > 0 ==> text.first() != unwanted && text.last() != unwanted,
    ensures
        trimmed(run(unwanted, before) + text + run(unwanted, after), unwanted) == text,
    decreases before + after,
{
    let padded = run(unwanted, before) + text + run(unwanted, after);
    if before > 0 {
        assert(padded.drop_first() =~= run(unwanted, (before - 1) as nat) + text + run(
            unwanted,
            after,
        ));
        law_trimmed_undoes_padding(text, unwanted, (before - 1) as nat, after);
    } else if after > 0 {
        let shorter = run(unwanted, 0) + text + run(unwanted, (after - 1) as nat);
        assert(padded.drop_last() =~= shorter);
        law_trimmed_undoes_padding(text, unwanted, 0, (after - 1) as nat);
        if text.len() > 0 {
            assert(padded.first() == text.first());
            assert(shorter.first() == text.first());
        } else {
            assert(padded.drop_first() =~= shorter);
        }
    } else {
        assert(padded =~= text);
    }
}

/// Whether two texts are the same.
pub fn same(left: &str, right: &str) -> (equal: bool)
    ensures
        equal == (left@ == right@),
{
    let left_bytes = left.as_bytes();
    let right_bytes = right.as_bytes();
    proof {
        vstd::utf8::encode_utf8_decode_utf8(left@);
        vstd::utf8::encode_utf8_decode_utf8(right@);
    }
    if left_bytes.len() != right_bytes.len() {
        return false;
    }
    for i in 0..left_bytes.len()
        invariant
            left_bytes@.len() == right_bytes@.len(),
            left_bytes@ == vstd::utf8::encode_utf8(left@),
            right_bytes@ == vstd::utf8::encode_utf8(right@),
            forall|j: int| 0 <= j < i ==> left_bytes@[j] == right_bytes@[j],
    {
        if left_bytes[i] != right_bytes[i] {
            return false;
        }
    }
    assert(left_bytes@ =~= right_bytes@);
    true
}

/// What follows `prefix` in `text`, if `text` starts with `prefix`.
pub fn strip_prefix<'a>(text: &'a str, prefix: &str) -> (rest: Option<&'a str>)
    ensures
        rest is Some <==> prefix@.is_prefix_of(text@),
        rest matches Some(rest) ==> rest@ == text@.skip(prefix@.len() as int),
{
    let text_len = text.unicode_len();
    let prefix_len = prefix.unicode_len();
    if prefix_len <= text_len && same(text.substring_char(0, prefix_len), prefix) {
        Some(text.substring_char(prefix_len, text_len))
    } else {
        None
    }
}

/// `text` without the `unwanted` characters that it starts with.
pub fn trim_start(text: &str, unwanted: char) -> (kept: &str)
    ensures
        kept@ == trimmed_start(text@, unwanted),
{
    let len = text.unicode_len();
    let mut start: usize = 0;
    assert(text@.skip(0) =~= text@);
    while start < len && text.get_char(start) == unwanted
        invariant
            start <= len,
            len == text@.len(),
            trimmed_start(text@.skip(start as int), unwanted) == trimmed_start(text@, unwanted),
        decreases len - start,
    {
        assert(text@.skip(start as int).drop_first() =~= text@.skip(start + 1));
        start = start + 1;
    }
    assert(text@.subrange(start as int, len as int) =~= text@.skip(start as int));
    text.substring_char(start, len)
}

/// `text` without the `unwanted` characters that it ends with.
pub fn trim_end(text: &str, unwanted: char) -> (kept: &str)
    ensures
        kept@ == trimmed_end(text@, unwanted),
{
    let mut end: usize = text.unicode_len();
    assert(text@.take(end as int) =~= text@);
    while end > 0 && text.get_char(end - 1) == unwanted
        invariant
            end <= text@.len(),
            trimmed_end(text@.take(end as int), unwanted) == trimmed_end(text@, unwanted),
        decreases end,
    {
        assert(text@.take(end as int).drop_last() =~= text@.take(end - 1));
        end = end - 1;
    }
    assert(text@.subrange(0, end as int) =~= text@.take(end as int));
    text.substring_char(0, end)
}

/// `text` without the `unwanted` characters at either end of it.
pub fn trim(text: &str, unwanted: char) -> (kept: &str)
    ensures
        kept@ == trimmed(text@, unwanted),
{
    trim_end(trim_start(text, unwanted), unwanted)
}

/// `head` followed by `tail`.
pub fn join(head: &str, tail: &str) -> (joined: String)
    ensures
        joined@ == head@ + tail@,
{
    head.to_owned().concat(tail)
}

} // verus!

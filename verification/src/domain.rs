//! The syntax of a bare domain name, such as `example.com`.

use vstd::prelude::*;

use crate::text::chars_of;

verus! {

/// An ASCII letter.
pub open spec fn is_letter(c: char) -> bool {
    ('a' <= c && c <= 'z') || ('A' <= c && c <= 'Z')
}

/// A character that a label is made of: an ASCII letter or digit, or `-`.
pub open spec fn is_label_char(c: char) -> bool {
    is_letter(c) || ('0' <= c && c <= '9') || c == '-'
}

/// A label: 1 to 63 label characters, neither the first nor the last of
/// them a hyphen.
pub open spec fn is_label(part: Seq<char>) -> bool {
    &&& 1 <= part.len() <= 63
    &&& forall|k: int| 0 <= k < part.len() ==> is_label_char(#[trigger] part[k])
    &&& part.first() != '-'
    &&& part.last() != '-'
}

/// A final label: two or more letters.
pub open spec fn is_final_label(part: Seq<char>) -> bool {
    &&& part.len() >= 2
    &&& forall|k: int| 0 <= k < part.len() ==> is_letter(#[trigger] part[k])
}

/// The parts of `text` between its dots, in order. There is one part more
/// than there are dots; a part is empty where two dots meet and where
/// `text` starts or ends with a dot.
pub open spec fn split_at_dots(text: Seq<char>) -> Seq<Seq<char>>
    decreases text.len(),
{
    if text.len() == 0 {
        seq![Seq::empty()]
    } else {
        let parts = split_at_dots(text.drop_last());
        if text.last() == '.' {
            parts.push(Seq::empty())
        } else {
            parts.drop_last().push(parts.last().push(text.last()))
        }
    }
}

/// A domain name: labels separated by dots, at least one of them, then a
/// dot and a final label.
pub open spec fn is_domain_name(text: Seq<char>) -> bool {
    let parts = split_at_dots(text);
    &&& parts.len() >= 2
    &&& forall|k: int| 0 <= k < parts.len() - 1 ==> is_label(#[trigger] parts[k])
    &&& is_final_label(parts.last())
}

/// Labels followed by a final label: what a domain name is made of.
pub open spec fn are_domain_parts(parts: Seq<Seq<char>>) -> bool {
    &&& parts.len() >= 2
    &&& forall|k: int| 0 <= k < parts.len() - 1 ==> is_label(#[trigger] parts[k])
    &&& is_final_label(parts.last())
}

/// The parts with a dot between each two of them.
pub open spec fn join_with_dots(parts: Seq<Seq<char>>) -> Seq<char>
    decreases parts.len(),
{
    if parts.len() == 0 {
        Seq::empty()
    } else if parts.len() == 1 {
        parts[0]
    } else {
        join_with_dots(parts.drop_last()) + seq!['.'] + parts.last()
    }
}

/// Whether `part` holds no dot.
pub open spec fn dot_free(part: Seq<char>) -> bool {
    forall|k: int| 0 <= k < part.len() ==> #[trigger] part[k] != '.'
}

/// Behind a dot, a part without dots is one more part.
proof fn lemma_split_after_dot(text: Seq<char>, part: Seq<char>)
    requires
        dot_free(part),
    ensures
        split_at_dots(text + seq!['.'] + part) == split_at_dots(text).push(part),
    decreases part.len(),
{
    let whole = text + seq!['.'] + part;
    if part.len() == 0 {
        assert(whole.drop_last() =~= text);
        assert(part =~= Seq::<char>::empty());
    } else {
        let shorter = part.drop_last();
        assert(whole.drop_last() =~= text + seq!['.'] + shorter);
        assert(whole.last() == part.last());
        lemma_split_after_dot(text, shorter);
        let before = split_at_dots(text).push(shorter);
        assert(before.drop_last() =~= split_at_dots(text));
        assert(shorter.push(part.last()) =~= part);
    }
}

/// A text without dots is one part.
proof fn lemma_split_dot_free(part: Seq<char>)
    requires
        dot_free(part),
    ensures
        split_at_dots(part) == seq![part],
    decreases part.len(),
{
    if part.len() == 0 {
        assert(part =~= Seq::<char>::empty());
    } else {
        lemma_split_dot_free(part.drop_last());
        assert(part.drop_last().push(part.last()) =~= part);
        assert(seq![part.drop_last()].drop_last().push(part) =~= seq![part]);
    }
}

/// Splitting undoes joining, for parts that hold no dot.
pub proof fn lemma_split_join(parts: Seq<Seq<char>>)
    requires
        parts.len() >= 1,
        forall|k: int| 0 <= k < parts.len() ==> dot_free(#[trigger] parts[k]),
    ensures
        split_at_dots(join_with_dots(parts)) == parts,
    decreases parts.len(),
{
    if parts.len() == 1 {
        lemma_split_dot_free(parts[0]);
        assert(seq![parts[0]] =~= parts);
    } else {
        let init = parts.drop_last();
        assert forall|k: int| 0 <= k < init.len() implies dot_free(#[trigger] init[k]) by {
            assert(init[k] == parts[k]);
        }
        lemma_split_join(init);
        lemma_split_after_dot(join_with_dots(init), parts.last());
        assert(init.push(parts.last()) =~= parts);
    }
}

/// Joining undoes splitting, and no part of a split holds a dot.
pub proof fn lemma_join_split(text: Seq<char>)
    ensures
        split_at_dots(text).len() >= 1,
        forall|k: int| 0 <= k < split_at_dots(text).len() ==> dot_free(#[trigger] split_at_dots(text)[k]),
        join_with_dots(split_at_dots(text)) == text,
    decreases text.len(),
{
    if text.len() == 0 {
        assert(join_with_dots(split_at_dots(text)) =~= text);
    } else {
        let shorter = text.drop_last();
        let before = split_at_dots(shorter);
        let after = split_at_dots(text);
        lemma_join_split(shorter);
        if text.last() == '.' {
            assert(after.drop_last() =~= before);
            assert(join_with_dots(after) =~= text);
        } else {
            let grown = before.last().push(text.last());
            assert(after.last() == grown);
            assert(after.drop_last() =~= before.drop_last());
            if before.len() == 1 {
                assert(join_with_dots(after) =~= text);
            } else {
                assert(join_with_dots(after) =~= join_with_dots(before).push(text.last()));
                assert(join_with_dots(after) =~= text);
            }
        }
    }
}

/// A text is a domain name exactly if it is one or more labels and a
/// final label, joined by dots.
pub proof fn lemma_domain_name_form(text: Seq<char>)
    ensures
        is_domain_name(text) <==> exists|parts: Seq<Seq<char>>|
            are_domain_parts(parts) && #[trigger] join_with_dots(parts) == text,
{
    lemma_join_split(text);
    if is_domain_name(text) {
        assert(are_domain_parts(split_at_dots(text)));
    }
    if exists|parts: Seq<Seq<char>>|
        are_domain_parts(parts) && #[trigger] join_with_dots(parts) == text {
        let parts = choose|parts: Seq<Seq<char>>|
            are_domain_parts(parts) && #[trigger] join_with_dots(parts) == text;
        assert forall|k: int| 0 <= k < parts.len() implies dot_free(#[trigger] parts[k]) by {
            if k < parts.len() - 1 {
                assert(is_label(parts[k]));
            } else {
                assert(parts[k] == parts.last());
            }
        }
        lemma_split_join(parts);
    }
}

fn letter(c: char) -> (yes: bool)
    ensures
        yes == is_letter(c),
{
    ('a' <= c && c <= 'z') || ('A' <= c && c <= 'Z')
}

fn label_char(c: char) -> (yes: bool)
    ensures
        yes == is_label_char(c),
{
    letter(c) || ('0' <= c && c <= '9') || c == '-'
}

/// Whether the characters from `from` up to `to` form a label.
fn label_at(chars: &Vec<char>, from: usize, to: usize) -> (yes: bool)
    requires
        from <= to <= chars.len(),
    ensures
        yes == is_label(chars@.subrange(from as int, to as int)),
{
    let ghost part = chars@.subrange(from as int, to as int);
    if to - from < 1 || to - from > 63 {
        return false;
    }
    if chars[from] == '-' || chars[to - 1] == '-' {
        assert(part.first() == chars@[from as int]);
        assert(part.last() == chars@[to - 1]);
        return false;
    }
    let mut k: usize = from;
    while k < to
        invariant
            from <= k <= to <= chars.len(),
            part == chars@.subrange(from as int, to as int),
            forall|m: int| 0 <= m < k - from ==> is_label_char(#[trigger] part[m]),
        decreases to - k,
    {
        if !label_char(chars[k]) {
            assert(part[k - from] == chars@[k as int]);
            return false;
        }
        assert(part[k - from] == chars@[k as int]);
        k += 1;
    }
    assert(part.first() == chars@[from as int]);
    assert(part.last() == chars@[to - 1]);
    true
}

/// Whether the characters from `from` up to `to` form a final label.
fn final_label_at(chars: &Vec<char>, from: usize, to: usize) -> (yes: bool)
    requires
        from <= to <= chars.len(),
    ensures
        yes == is_final_label(chars@.subrange(from as int, to as int)),
{
    let ghost part = chars@.subrange(from as int, to as int);
    if to - from < 2 {
        return false;
    }
    let mut k: usize = from;
    while k < to
        invariant
            from <= k <= to <= chars.len(),
            part == chars@.subrange(from as int, to as int),
            forall|m: int| 0 <= m < k - from ==> is_letter(#[trigger] part[m]),
        decreases to - k,
    {
        if !letter(chars[k]) {
            assert(part[k - from] == chars@[k as int]);
            return false;
        }
        assert(part[k - from] == chars@[k as int]);
        k += 1;
    }
    true
}

/// Whether `input` is a domain name.
pub fn is_domain(input: &str) -> (yes: bool)
    ensures
        yes == is_domain_name(input@),
{
    let chars = chars_of(input);
    let ghost text = chars@;
    let mut start: usize = 0;
    let mut dots: usize = 0;
    let mut labels_ok = true;
    let ghost mut done: Seq<Seq<char>> = Seq::empty();
    let mut i: usize = 0;
    proof {
        assert(text.take(0) =~= Seq::<char>::empty());
        assert(text.subrange(0, 0) =~= Seq::<char>::empty());
        assert(done.push(text.subrange(0, 0)) =~= seq![Seq::<char>::empty()]);
    }
    while i < chars.len()
        invariant
            start <= i <= chars.len(),
            text == chars@,
            split_at_dots(text.take(i as int)) == done.push(text.subrange(start as int, i as int)),
            dots == done.len(),
            dots <= i,
            labels_ok == (forall|k: int| 0 <= k < done.len() ==> is_label(#[trigger] done[k])),
        decreases chars.len() - i,
    {
        let ghost run = text.subrange(start as int, i as int);
        proof {
            assert(text.take(i + 1).drop_last() =~= text.take(i as int));
            assert(text.take(i + 1).last() == text[i as int]);
            assert(done.push(run).drop_last() =~= done);
        }
        if chars[i] == '.' {
            let ok = label_at(&chars, start, i);
            proof {
                let was = done;
                done = done.push(run);
                assert(text.subrange(i + 1, i + 1) =~= Seq::<char>::empty());
                assert forall|k: int| 0 <= k < was.len() implies done[k] == was[k] by {}
                assert(done[was.len() as int] == run);
            }
            labels_ok = labels_ok && ok;
            dots += 1;
            start = i + 1;
        } else {
            proof {
                assert(text.subrange(start as int, i + 1) =~= run.push(text[i as int]));
            }
        }
        i += 1;
    }
    proof {
        assert(text.take(i as int) =~= text);
        let parts = split_at_dots(text);
        assert(parts.last() == text.subrange(start as int, i as int));
        assert forall|k: int| 0 <= k < parts.len() - 1 implies parts[k] == done[k] by {}
    }
    let last_ok = final_label_at(&chars, start, i);
    labels_ok && dots >= 1 && last_ok
}

} // verus!

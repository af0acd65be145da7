//! Cutting a text into parts at a separator.

use vstd::prelude::*;

verus! {

/// The position of the first `byte` in `text`, or the length of `text` if
/// there is none.
pub open spec fn spec_find(text: Seq<u8>, byte: u8) -> int
    decreases text.len(),
{
    if text.len() == 0 {
        0
    } else if text[0] == byte {
        0
    } else {
        1 + spec_find(text.drop_first(), byte)
    }
}

/// The parts of `text` between the occurrences of `separator`. A text
/// without separator is one part; two separators in a row enclose an empty
/// part.
pub open spec fn spec_split(text: Seq<u8>, separator: u8) -> Seq<Seq<u8>>
    decreases text.len(),
{
    let at = spec_find(text, separator);
    if 0 <= at < text.len() {
        seq![text.take(at)] + spec_split(text.skip(at + 1), separator)
    } else {
        seq![text]
    }
}

/// The first `byte` of a text is where a search from the left finds it.
pub proof fn lemma_find_at(text: Seq<u8>, byte: u8, at: int)
    requires
        0 <= at <= text.len(),
        forall|i: int| 0 <= i < at ==> text[i] != byte,
        at < text.len() ==> text[at] == byte,
    ensures
        spec_find(text, byte) == at,
    decreases at,
{
    if at > 0 {
        let rest = text.drop_first();
        assert forall|i: int| 0 <= i < at - 1 implies rest[i] != byte by {
            assert(rest[i] == text[i + 1]);
        }
        lemma_find_at(rest, byte, at - 1);
    }
}

/// Cuts the first `end` bytes of `bytes` at every `separator` and returns
/// where each part starts and ends.
pub fn split(bytes: &[u8], end: usize, separator: u8) -> (cuts: Vec<(usize, usize)>)
    requires
        end <= bytes@.len(),
    ensures
        cuts@.len() == spec_split(bytes@.take(end as int), separator).len(),
        forall|k: int|
            0 <= k < cuts@.len() ==> (#[trigger] cuts@[k]).0 <= cuts@[k].1 <= end,
        forall|k: int|
            0 <= k < cuts@.len() ==> spec_split(bytes@.take(end as int), separator)[k]
                == bytes@.subrange((#[trigger] cuts@[k]).0 as int, cuts@[k].1 as int),
{
    let ghost text = bytes@.take(end as int);
    let ghost wanted = spec_split(text, separator);
    let mut cuts: Vec<(usize, usize)> = Vec::new();
    let mut start: usize = 0;
    let mut i: usize = 0;
    assert(text.skip(0) =~= text);
    while i < end
        invariant
            start <= i <= end <= bytes@.len(),
            text == bytes@.take(end as int),
            wanted == spec_split(text, separator),
            forall|j: int| start <= j < i ==> text[j] != separator,
            forall|k: int| 0 <= k < cuts@.len() ==> (#[trigger] cuts@[k]).0 <= cuts@[k].1 <= end,
            wanted == Seq::new(
                cuts@.len(),
                |k: int| text.subrange(cuts@[k].0 as int, cuts@[k].1 as int),
            ) + spec_split(text.skip(start as int), separator),
        decreases end - i,
    {
        assert(bytes@[i as int] == text[i as int]);
        if bytes[i] == separator {
            proof {
                let rest = text.skip(start as int);
                assert forall|j: int| 0 <= j < i - start implies rest[j] != separator by {
                    assert(rest[j] == text[start + j]);
                }
                assert(rest[i - start] == text[i as int]);
                lemma_find_at(rest, separator, i - start);
                assert(rest.take(i - start) =~= text.subrange(start as int, i as int));
                assert(rest.skip(i - start + 1) =~= text.skip(i + 1));
                let before = Seq::new(
                    cuts@.len(),
                    |k: int| text.subrange(cuts@[k].0 as int, cuts@[k].1 as int),
                );
                let after = Seq::new(
                    cuts@.len() + 1,
                    |k: int|
                        text.subrange(
                            cuts@.push((start, i))[k].0 as int,
                            cuts@.push((start, i))[k].1 as int,
                        ),
                );
                assert(after =~= before + seq![text.subrange(start as int, i as int)]);
                assert(wanted =~= after + spec_split(text.skip(i + 1), separator));
            }
            cuts.push((start, i));
            start = i + 1;
        }
        i += 1;
    }
    proof {
        let rest = text.skip(start as int);
        assert forall|j: int| 0 <= j < rest.len() implies rest[j] != separator by {
            assert(rest[j] == text[start + j]);
        }
        lemma_find_at(rest, separator, rest.len() as int);
        assert(rest =~= text.subrange(start as int, end as int));
        let before = Seq::new(
            cuts@.len(),
            |k: int| text.subrange(cuts@[k].0 as int, cuts@[k].1 as int),
        );
        let after = Seq::new(
            cuts@.len() + 1,
            |k: int|
                text.subrange(
                    cuts@.push((start, end))[k].0 as int,
                    cuts@.push((start, end))[k].1 as int,
                ),
        );
        assert(after =~= before + seq![rest]);
        assert(wanted =~= after);
    }
    cuts.push((start, end));
    proof {
        assert forall|k: int| 0 <= k < cuts@.len() implies wanted[k] == bytes@.subrange(
            (#[trigger] cuts@[k]).0 as int,
            cuts@[k].1 as int,
        ) by {
            assert(text.subrange(cuts@[k].0 as int, cuts@[k].1 as int) =~= bytes@.subrange(
                cuts@[k].0 as int,
                cuts@[k].1 as int,
            ));
        }
    }
    cuts
}

} // verus!

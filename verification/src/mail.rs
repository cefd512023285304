use vstd::prelude::*;
use vstd::slice::slice_to_vec;

verus! {

/// The text with every occurrence of `from` replaced by `to`, scanning left
/// to right without overlap. An empty pattern leaves the text unchanged.
pub open spec fn replace_all(s: Seq<u8>, from: Seq<u8>, to: Seq<u8>) -> Seq<u8>
    decreases s.len(),
{
    if from.len() == 0 || s.len() < from.len() {
        s
    } else if s.subrange(0, from.len() as int) == from {
        to + replace_all(s.skip(from.len() as int), from, to)
    } else {
        seq![s[0]] + replace_all(s.skip(1), from, to)
    }
}

fn slice_eq_at(s: &[u8], pat: &[u8], i: usize) -> (r: bool)
    requires
        i + pat@.len() <= s@.len(),
    ensures
        r == (s@.subrange(i as int, i + pat@.len()) == pat@),
{
    let n = s.len();
    let mut j: usize = 0;
    while j < pat.len()
        invariant
            j <= pat@.len(),
            i + pat@.len() <= s@.len(),
            n == s@.len(),
            forall|k: int| 0 <= k < j ==> s@[i + k] == pat@[k],
        decreases pat@.len() - j,
    {
        proof {
            assert(i + j < n);
        }
        if s[i + j] != pat[j] {
            proof {
                assert(s@.subrange(i as int, i + pat@.len())[j as int] != pat@[j as int]);
            }
            return false;
        }
        j += 1;
    }
    proof {
        assert(s@.subrange(i as int, i + pat@.len()) =~= pat@);
    }
    true
}

/// Replaces every occurrence of `from` in `s` by `to`, exactly as
/// `replace_all` describes.
pub fn replace_bytes(s: &[u8], from: &[u8], to: &[u8]) -> (r: Vec<u8>)
    ensures
        r@ == replace_all(s@, from@, to@),
{
    if from.len() == 0 {
        return slice_to_vec(s);
    }
    let mut out: Vec<u8> = Vec::new();
    let mut i: usize = 0;
    proof {
        assert(s@.skip(0) =~= s@);
        assert(Seq::<u8>::empty() + replace_all(s@, from@, to@) =~= replace_all(s@, from@, to@));
    }
    while i < s.len()
        invariant
            i <= s@.len(),
            from@.len() >= 1,
            out@ + replace_all(s@.skip(i as int), from@, to@) == replace_all(s@, from@, to@),
        decreases s@.len() - i,
    {
        let ghost rest = s@.skip(i as int);
        if from.len() <= s.len() - i && slice_eq_at(s, from, i) {
            proof {
                assert(rest.subrange(0, from@.len() as int) =~= s@.subrange(
                    i as int,
                    i + from@.len(),
                ));
                assert(rest.skip(from@.len() as int) =~= s@.skip(i + from@.len()));
                assert(replace_all(rest, from@, to@) == to@ + replace_all(
                    s@.skip(i + from@.len()),
                    from@,
                    to@,
                ));
            }
            let mut piece = slice_to_vec(to);
            out.append(&mut piece);
            i += from.len();
            proof {
                assert(out@ + replace_all(s@.skip(i as int), from@, to@) =~= replace_all(
                    s@,
                    from@,
                    to@,
                ));
            }
        } else {
            proof {
                if rest.len() >= from@.len() {
                    assert(rest.subrange(0, from@.len() as int) =~= s@.subrange(
                        i as int,
                        i + from@.len(),
                    ));
                    assert(rest.subrange(0, from@.len() as int) != from@);
                }
                assert(rest[0] == s@[i as int]);
                assert(rest.skip(1) =~= s@.skip(i + 1));
                assert(replace_all(rest, from@, to@) == seq![s@[i as int]] + replace_all(
                    s@.skip(i + 1),
                    from@,
                    to@,
                ));
            }
            out.push(s[i]);
            i += 1;
            proof {
                assert(out@ + replace_all(s@.skip(i as int), from@, to@) =~= replace_all(
                    s@,
                    from@,
                    to@,
                ));
            }
        }
    }
    proof {
        assert(s@.skip(i as int) =~= Seq::<u8>::empty());
        assert(replace_all(s@.skip(i as int), from@, to@) == Seq::<u8>::empty());
        assert(out@ =~= out@ + Seq::<u8>::empty());
    }
    out
}

/// A template with each placeholder substituted in turn: key replaced by
/// value, first pair first, each pass over the whole text.
pub open spec fn filled(t: Seq<u8>, ps: Seq<(Vec<u8>, Vec<u8>)>) -> Seq<u8>
    decreases ps.len(),
{
    if ps.len() == 0 {
        t
    } else {
        filled(replace_all(t, ps[0].0@, ps[0].1@), ps.skip(1))
    }
}

/// Fills an outbound message template: each placeholder's key is replaced by
/// its value, pairs applied in order, exactly as `filled` describes. The
/// transport that loads the template and sends the message stays outside.
pub fn fill_template(template: Vec<u8>, placeholders: &Vec<(Vec<u8>, Vec<u8>)>) -> (r: Vec<u8>)
    ensures
        r@ == filled(template@, placeholders@),
{
    let mut current = template;
    let mut i: usize = 0;
    proof {
        assert(placeholders@.skip(0) =~= placeholders@);
    }
    while i < placeholders.len()
        invariant
            i <= placeholders@.len(),
            filled(current@, placeholders@.skip(i as int)) == filled(template@, placeholders@),
        decreases placeholders@.len() - i,
    {
        let ghost rest = placeholders@.skip(i as int);
        proof {
            assert(rest[0] == placeholders@[i as int]);
            assert(rest.skip(1) =~= placeholders@.skip(i + 1));
            assert(filled(current@, rest) == filled(
                replace_all(current@, rest[0].0@, rest[0].1@),
                rest.skip(1),
            ));
        }
        let (key, value) = (&placeholders[i].0, &placeholders[i].1);
        current = replace_bytes(current.as_slice(), key.as_slice(), value.as_slice());
        i += 1;
    }
    proof {
        assert(placeholders@.skip(i as int) =~= Seq::<(Vec<u8>, Vec<u8>)>::empty());
        assert(filled(current@, placeholders@.skip(i as int)) == current@);
    }
    current
}

} // verus!

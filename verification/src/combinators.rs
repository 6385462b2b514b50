//! Iterator-combinator chains, written as verified loops.
//!
//! `filter_and_uppercase` keeps the words that start with `a` or `b` and
//! uppercases them, as a `filter`/`map`/`collect` chain would; `flatten_options`
//! keeps the values of the `Some` entries, as `flatten`/`collect` would.

use vstd::prelude::*;

verus! {

/// The uppercased form of `s`, as `str::to_uppercase` computes it.
pub uninterp spec fn upper_of(s: Seq<char>) -> Seq<char>;

/// Relies on str::to_uppercase: the result depends on the characters alone.
#[verifier::external_body]
fn to_uppercase(s: &str) -> (r: String)
    ensures
        r@ == upper_of(s@),
        s@.len() == 0 ==> r@.len() == 0,
{
    s.to_uppercase()
}

/// Whether the chain keeps a word: it must start with `a` or `b`.
pub open spec fn keeps_word(w: Seq<char>) -> bool {
    w.len() > 0 && (w[0] == 'a' || w[0] == 'b')
}

/// The views of a sequence of strings.
pub open spec fn views_of(words: Seq<String>) -> Seq<Seq<char>> {
    words.map_values(|w: String| w@)
}

/// What the chain computes: the kept words, each uppercased, in order.
pub open spec fn selected_uppercased(words: Seq<String>) -> Seq<Seq<char>> {
    views_of(words).filter(|w: Seq<char>| keeps_word(w)).map_values(|w: Seq<char>| upper_of(w))
}

/// Keeps the words that start with `a` or `b`, uppercased, in their
/// original order.
pub fn filter_and_uppercase(words: Vec<String>) -> (r: Vec<String>)
    ensures
        views_of(r@) == selected_uppercased(words@),
{
    let ghost vs: Seq<Seq<char>> = views_of(words@);
    let mut result: Vec<String> = Vec::new();
    proof {
        reveal(Seq::filter);
        assert(views_of(result@) =~= selected_uppercased(words@.take(0)));
    }
    let mut i: usize = 0;
    while i < words.len()
        invariant
            i <= words@.len(),
            vs == views_of(words@),
            views_of(result@) == selected_uppercased(words@.take(i as int)),
        decreases words@.len() - i,
    {
        let word = &words[i];
        let keep = if word.as_str().is_empty() {
            false
        } else {
            let c = word.as_str().get_char(0);
            c == 'a' || c == 'b'
        };
        proof {
            assert(keep == keeps_word(vs[i as int]));
            assert(views_of(words@.take(i as int)) =~= vs.take(i as int));
            assert(views_of(words@.take(i + 1)) =~= vs.take(i + 1));
            assert(vs.take(i + 1).drop_last() =~= vs.take(i as int));
        }
        if keep {
            let upper = to_uppercase(word.as_str());
            let ghost prev: Seq<String> = result@;
            result.push(upper);
            proof {
                reveal(Seq::filter);
                let f = |w: Seq<char>| upper_of(w);
                let kept = vs.take(i as int).filter(|w: Seq<char>| keeps_word(w));
                assert(vs.take(i + 1).last() == vs[i as int]);
                assert(vs.take(i + 1).filter(|w: Seq<char>| keeps_word(w)) == kept.push(
                    vs[i as int],
                ));
                assert(word@ == vs[i as int]);
                assert(views_of(prev) == kept.map_values(f));
                assert(views_of(prev).len() == prev.len());
                assert(kept.map_values(f).len() == kept.len());
                assert(prev.len() == kept.len());
                assert(result@ == prev.push(upper));
                assert forall|j: int| 0 <= j < result@.len() implies views_of(result@)[j]
                    == kept.push(vs[i as int]).map_values(f)[j] by {
                    if j < prev.len() {
                        assert(result@[j] == prev[j]);
                        assert(views_of(prev)[j] == kept.map_values(f)[j]);
                    } else {
                        assert(result@[j] == upper);
                    }
                }
                assert(views_of(result@) =~= kept.push(vs[i as int]).map_values(f));
            }
        } else {
            proof {
                reveal(Seq::filter);
                assert(vs.take(i + 1).last() == vs[i as int]);
                assert(vs.take(i + 1).filter(|w: Seq<char>| keeps_word(w)) == vs.take(
                    i as int,
                ).filter(|w: Seq<char>| keeps_word(w)));
            }
        }
        i = i + 1;
    }
    proof {
        assert(words@.take(i as int) =~= words@);
    }
    result
}

/// What flattening computes: the values of the `Some` entries, in order.
pub open spec fn some_values(products: Seq<Option<String>>) -> Seq<String> {
    products.filter(|p: Option<String>| p is Some).map_values(|p: Option<String>| p->0)
}

/// Keeps the values of the `Some` entries, in their original order.
pub fn flatten_options(products: Vec<Option<String>>) -> (r: Vec<String>)
    ensures
        r@ == some_values(products@),
{
    let mut result: Vec<String> = Vec::new();
    proof {
        reveal(Seq::filter);
        assert(result@ =~= some_values(products@.take(0)));
    }
    let mut i: usize = 0;
    while i < products.len()
        invariant
            i <= products@.len(),
            result@ == some_values(products@.take(i as int)),
        decreases products@.len() - i,
    {
        let product = &products[i];
        proof {
            assert(products@.take(i + 1).drop_last() =~= products@.take(i as int));
        }
        match product {
            Some(value) => {
                result.push(value.clone());
                proof {
                    reveal(Seq::filter);
                    let kept = products@.take(i as int).filter(|p: Option<String>| p is Some);
                    assert(products@.take(i + 1).last() == products@[i as int]);
                    assert(products@.take(i + 1).filter(|p: Option<String>| p is Some) == kept.push(
                        products@[i as int],
                    ));
                    assert(result@ =~= kept.push(products@[i as int]).map_values(
                        |p: Option<String>| p->0,
                    ));
                }
            },
            None => {
                proof {
                    reveal(Seq::filter);
                    assert(products@.take(i + 1).last() == products@[i as int]);
                    assert(products@.take(i + 1).filter(|p: Option<String>| p is Some)
                        == products@.take(i as int).filter(|p: Option<String>| p is Some));
                }
            },
        }
        i = i + 1;
    }
    proof {
        assert(products@.take(i as int) =~= products@);
    }
    result
}

} // verus!

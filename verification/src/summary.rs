//! Reduction of a raw menu payload into a fixed three-bowl price summary.
//!
//! The reduction scans the entree items in order, keeps the first price seen
//! for each of the three known bowl variants, ignores everything else, and
//! either yields a complete summary or fails naming exactly the missing
//! fields, in a fixed order.

use vstd::prelude::*;

use crate::menu::Item;
use crate::menu::Response;
use crate::text::chars_eq_str;
use crate::text::eq_lower_key;
use crate::text::lower_chars;
use crate::text::remove_sub_chars;
use crate::text::spec_lower;
use crate::text::spec_replace;
use crate::text::spec_trim;
use crate::text::trim_chars;

verus! {

/// The two prices carried for one bowl variant, in the same opaque 32-bit
/// encoding as the raw items they come from.
#[derive(Clone, Copy, Debug, PartialEq, Eq, Structural)]
pub struct Price {
    pub normal_price: u32,
    pub delivery_price: u32,
}

/// The fixed-shape menu summary: never observable partially filled.
#[derive(Clone, Copy, Debug, PartialEq, Eq, Structural)]
pub struct Summary {
    pub restaurant_id: i32,
    pub veggie_bowl_price: Price,
    pub chicken_bowl_price: Price,
    pub steak_bowl_price: Price,
}

/// The accumulator of the reduction: each field is recorded at most once.
#[derive(Clone, Copy, Debug)]
pub struct SummaryBuilder {
    pub restaurant_id: Option<i32>,
    pub veggie_bowl_price: Option<Price>,
    pub chicken_bowl_price: Option<Price>,
    pub steak_bowl_price: Option<Price>,
}

/// Why a summary could not be built: the names of the absent fields, in the
/// fixed order restaurant id, veggie, chicken, steak.
#[derive(Debug, PartialEq, Eq)]
pub enum BuildError {
    MissingFields(Vec<&'static str>),
}

/// An item counts as a bowl when its type, ASCII lower-cased, is "bowl".
pub open spec fn spec_is_bowl(item_type: Seq<char>) -> bool {
    spec_lower(item_type) == "bowl"@
}

/// The variant key of an item name: lower-case the name, remove every
/// occurrence of "bowl", and trim the surrounding whitespace.
pub open spec fn spec_variant_key(name: Seq<char>) -> Seq<char> {
    spec_trim(spec_replace(spec_lower(name), "bowl"@, Seq::<char>::empty()))
}

/// An item the reduction ignores: not a bowl, or its variant key is not one of
/// the three known variants.
pub open spec fn spec_item_ignored(item: Item) -> bool {
    !spec_is_bowl(item.item_type@) || {
        let key = spec_variant_key(item.item_name@);
        key != "veggie"@ && key != "chicken"@ && key != "steak"@
    }
}

/// One step of the reduction: a qualifying item records its price for its
/// variant unless that variant is already filled; everything else is ignored.
pub open spec fn spec_step(b: SummaryBuilder, item: Item) -> SummaryBuilder {
    if !spec_is_bowl(item.item_type@) {
        b
    } else {
        let key = spec_variant_key(item.item_name@);
        let price = Price {
            normal_price: item.unit_price,
            delivery_price: item.unit_delivery_price,
        };
        if key == "veggie"@ && b.veggie_bowl_price is None {
            SummaryBuilder { veggie_bowl_price: Some(price), ..b }
        } else if key == "chicken"@ && b.chicken_bowl_price is None {
            SummaryBuilder { chicken_bowl_price: Some(price), ..b }
        } else if key == "steak"@ && b.steak_bowl_price is None {
            SummaryBuilder { steak_bowl_price: Some(price), ..b }
        } else {
            b
        }
    }
}

/// The reduction of a whole item list, folding `spec_step` left to right.
pub open spec fn spec_reduce(items: Seq<Item>, b: SummaryBuilder) -> SummaryBuilder
    decreases items.len(),
{
    if items.len() == 0 {
        b
    } else {
        spec_step(spec_reduce(items.drop_last(), b), items.last())
    }
}

/// All four fields of the accumulator are recorded.
pub open spec fn spec_complete(b: SummaryBuilder) -> bool {
    &&& b.restaurant_id is Some
    &&& b.veggie_bowl_price is Some
    &&& b.chicken_bowl_price is Some
    &&& b.steak_bowl_price is Some
}

/// The names of the absent fields, in their fixed order.
pub open spec fn spec_missing_fields(b: SummaryBuilder) -> Seq<Seq<char>> {
    (if b.restaurant_id is None {
        seq!["restaurant_id"@]
    } else {
        Seq::<Seq<char>>::empty()
    }) + (if b.veggie_bowl_price is None {
        seq!["veggie_bowl_price"@]
    } else {
        Seq::<Seq<char>>::empty()
    }) + (if b.chicken_bowl_price is None {
        seq!["chicken_bowl_price"@]
    } else {
        Seq::<Seq<char>>::empty()
    }) + (if b.steak_bowl_price is None {
        seq!["steak_bowl_price"@]
    } else {
        Seq::<Seq<char>>::empty()
    })
}

/// The accumulator a whole response reduces to: every entree folded through
/// `spec_step`, starting from the restaurant id alone.
pub open spec fn spec_response_builder(res: Response) -> SummaryBuilder {
    spec_reduce(
        res.entrees@,
        SummaryBuilder {
            restaurant_id: Some(res.restaurant_id),
            veggie_bowl_price: None,
            chicken_bowl_price: None,
            steak_bowl_price: None,
        },
    )
}

/// The summary a complete accumulator builds.
pub open spec fn spec_summary_of(b: SummaryBuilder) -> Summary
    recommends
        spec_complete(b),
{
    Summary {
        restaurant_id: b.restaurant_id->0,
        veggie_bowl_price: b.veggie_bowl_price->0,
        chicken_bowl_price: b.chicken_bowl_price->0,
        steak_bowl_price: b.steak_bowl_price->0,
    }
}

impl Summary {
    /// An empty accumulator.
    pub fn builder() -> (b: SummaryBuilder)
        ensures
            b == (SummaryBuilder {
                restaurant_id: None,
                veggie_bowl_price: None,
                chicken_bowl_price: None,
                steak_bowl_price: None,
            }),
    {
        SummaryBuilder {
            restaurant_id: None,
            veggie_bowl_price: None,
            chicken_bowl_price: None,
            steak_bowl_price: None,
        }
    }

    /// Reduces a raw menu payload: fold every entree through `spec_step`
    /// starting from an accumulator holding the restaurant id, then build.
    /// Items in `sides` are never consulted.
    pub fn from_response(res: Response) -> (r: Result<Summary, BuildError>)
        ensures
            ({
                let b = spec_response_builder(res);
                match r {
                    Ok(s) => spec_complete(b) && s == spec_summary_of(b),
                    Err(BuildError::MissingFields(fields)) => !spec_complete(b)
                        && fields.deep_view() == spec_missing_fields(b),
                }
            }),
    {
        let ghost init = SummaryBuilder {
            restaurant_id: Some(res.restaurant_id),
            veggie_bowl_price: None,
            chicken_bowl_price: None,
            steak_bowl_price: None,
        };
        let mut builder = Summary::builder().restaurant_id(res.restaurant_id);
        let entrees = res.entrees;
        let n = entrees.len();
        let mut i: usize = 0;
        proof {
            assert(entrees@.take(0) =~= Seq::<Item>::empty());
        }
        while i < n
            invariant
                n == entrees@.len(),
                0 <= i <= n,
                entrees@ == res.entrees@,
                init == (SummaryBuilder {
                    restaurant_id: Some(res.restaurant_id),
                    veggie_bowl_price: None,
                    chicken_bowl_price: None,
                    steak_bowl_price: None,
                }),
                builder == spec_reduce(entrees@.take(i as int), init),
            decreases n - i,
        {
            if builder.is_complete() {
                proof {
                    lemma_reduce_complete_stable(entrees@.skip(i as int), builder);
                    lemma_reduce_append(entrees@.take(i as int), entrees@.skip(i as int), init);
                    assert(entrees@.take(i as int) + entrees@.skip(i as int) =~= entrees@);
                }
                return builder.build();
            }
            let item = &entrees[i];
            let ghost prev = builder;
            if eq_lower_key(item.item_type.as_str(), "bowl") {
                proof {
                    reveal_strlit("bowl");
                    reveal_strlit("veggie");
                    reveal_strlit("chicken");
                    reveal_strlit("steak");
                }
                let lowered = lower_chars(item.item_name.as_str());
                let removed = remove_sub_chars(&lowered, "bowl");
                let key = trim_chars(&removed);
                proof {
                    assert(spec_is_bowl(item.item_type@));
                    assert(key@ == spec_variant_key(item.item_name@));
                }
                let price = Price {
                    normal_price: item.unit_price,
                    delivery_price: item.unit_delivery_price,
                };
                if chars_eq_str(&key, "veggie") {
                    if builder.veggie_bowl_price.is_none() {
                        builder = builder.veggie_bowl_price(price);
                    }
                    assert(builder == spec_step(prev, *item));
                } else if chars_eq_str(&key, "chicken") {
                    if builder.chicken_bowl_price.is_none() {
                        builder = builder.chicken_bowl_price(price);
                    }
                    assert(builder == spec_step(prev, *item));
                } else if chars_eq_str(&key, "steak") {
                    if builder.steak_bowl_price.is_none() {
                        builder = builder.steak_bowl_price(price);
                    }
                    assert(builder == spec_step(prev, *item));
                } else {
                    assert(builder == spec_step(prev, *item));
                }
            } else {
                assert(builder == spec_step(prev, *item));
            }
            proof {
                assert(entrees@.take(i + 1).drop_last() =~= entrees@.take(i as int));
                assert(entrees@.take(i + 1).last() == entrees@[i as int]);
            }
            i += 1;
        }
        proof {
            assert(entrees@.take(n as int) =~= entrees@);
        }
        builder.build()
    }
}

impl SummaryBuilder {
    /// Records the restaurant id.
    pub fn restaurant_id(self, restaurant_id: i32) -> (b: Self)
        ensures
            b == (SummaryBuilder { restaurant_id: Some(restaurant_id), ..self }),
    {
        SummaryBuilder { restaurant_id: Some(restaurant_id), ..self }
    }

    /// Records the veggie bowl price.
    pub fn veggie_bowl_price(self, veggie_bowl_price: Price) -> (b: Self)
        ensures
            b == (SummaryBuilder { veggie_bowl_price: Some(veggie_bowl_price), ..self }),
    {
        SummaryBuilder { veggie_bowl_price: Some(veggie_bowl_price), ..self }
    }

    /// Records the chicken bowl price.
    pub fn chicken_bowl_price(self, chicken_bowl_price: Price) -> (b: Self)
        ensures
            b == (SummaryBuilder { chicken_bowl_price: Some(chicken_bowl_price), ..self }),
    {
        SummaryBuilder { chicken_bowl_price: Some(chicken_bowl_price), ..self }
    }

    /// Records the steak bowl price.
    pub fn steak_bowl_price(self, steak_bowl_price: Price) -> (b: Self)
        ensures
            b == (SummaryBuilder { steak_bowl_price: Some(steak_bowl_price), ..self }),
    {
        SummaryBuilder { steak_bowl_price: Some(steak_bowl_price), ..self }
    }

    /// Are all four fields recorded?
    pub fn is_complete(&self) -> (r: bool)
        ensures
            r == spec_complete(*self),
    {
        self.restaurant_id.is_some() && self.veggie_bowl_price.is_some()
            && self.chicken_bowl_price.is_some() && self.steak_bowl_price.is_some()
    }

    /// Builds the summary, or fails naming exactly the absent fields in the
    /// fixed order restaurant id, veggie, chicken, steak.
    pub fn build(self) -> (r: Result<Summary, BuildError>)
        ensures
            match r {
                Ok(s) => spec_complete(self) && s == spec_summary_of(self),
                Err(BuildError::MissingFields(fields)) => !spec_complete(self)
                    && fields.deep_view() == spec_missing_fields(self),
            },
    {
        if !self.is_complete() {
            let mut missing_fields: Vec<&'static str> = Vec::new();
            if self.restaurant_id.is_none() {
                missing_fields.push("restaurant_id");
            }
            if self.veggie_bowl_price.is_none() {
                missing_fields.push("veggie_bowl_price");
            }
            if self.chicken_bowl_price.is_none() {
                missing_fields.push("chicken_bowl_price");
            }
            if self.steak_bowl_price.is_none() {
                missing_fields.push("steak_bowl_price");
            }
            proof {
                assert(missing_fields.deep_view() =~= spec_missing_fields(self));
            }
            return Err(BuildError::MissingFields(missing_fields));
        }
        Ok(
            Summary {
                restaurant_id: self.restaurant_id.unwrap(),
                veggie_bowl_price: self.veggie_bowl_price.unwrap(),
                chicken_bowl_price: self.chicken_bowl_price.unwrap(),
                steak_bowl_price: self.steak_bowl_price.unwrap(),
            },
        )
    }
}

/// Folding a concatenation is folding the two parts in turn.
proof fn lemma_reduce_append(s1: Seq<Item>, s2: Seq<Item>, b: SummaryBuilder)
    ensures
        spec_reduce(s1 + s2, b) == spec_reduce(s2, spec_reduce(s1, b)),
    decreases s2.len(),
{
    if s2.len() == 0 {
        assert(s1 + s2 =~= s1);
    } else {
        lemma_reduce_append(s1, s2.drop_last(), b);
        assert((s1 + s2).drop_last() =~= s1 + s2.drop_last());
        assert((s1 + s2).last() == s2.last());
    }
}

/// Once the accumulator is complete, further items never change it: the
/// reduction may stop scanning early without affecting the result.
pub proof fn lemma_reduce_complete_stable(items: Seq<Item>, b: SummaryBuilder)
    requires
        spec_complete(b),
    ensures
        spec_reduce(items, b) == b,
    decreases items.len(),
{
    if items.len() > 0 {
        lemma_reduce_complete_stable(items.drop_last(), b);
    }
}

/// The reduction never clears the restaurant id, and once a variant's price
/// is recorded, later items never change it: the first matching item wins.
pub proof fn lemma_first_match_wins(items: Seq<Item>, b: SummaryBuilder)
    ensures
        spec_reduce(items, b).restaurant_id == b.restaurant_id,
        b.veggie_bowl_price is Some ==> spec_reduce(items, b).veggie_bowl_price
            == b.veggie_bowl_price,
        b.chicken_bowl_price is Some ==> spec_reduce(items, b).chicken_bowl_price
            == b.chicken_bowl_price,
        b.steak_bowl_price is Some ==> spec_reduce(items, b).steak_bowl_price
            == b.steak_bowl_price,
    decreases items.len(),
{
    if items.len() > 0 {
        lemma_first_match_wins(items.drop_last(), b);
    }
}

/// An ignored item — one whose type is not "bowl", or whose variant key is
/// none of the three known variants — can be removed from the item list
/// without changing the reduction.
pub proof fn lemma_ignored_item_no_effect(items: Seq<Item>, k: int, b: SummaryBuilder)
    requires
        0 <= k < items.len(),
        spec_item_ignored(items[k]),
    ensures
        spec_reduce(items, b) == spec_reduce(items.remove(k), b),
    decreases items.len(),
{
    if k == items.len() - 1 {
        assert(items.remove(k) =~= items.drop_last());
        assert(spec_step(spec_reduce(items.drop_last(), b), items.last()) == spec_reduce(
            items.drop_last(),
            b,
        ));
    } else {
        lemma_ignored_item_no_effect(items.drop_last(), k, b);
        assert(items.remove(k).drop_last() =~= items.drop_last().remove(k));
        assert(items.remove(k).last() == items.last());
    }
}

} // verus!

//! The coupon feed: the shapes the coupon website answers with, the
//! localisation of its resource names, and the de-duplication applied before
//! coupons are published to the webhooks.

use vstd::prelude::*;

use crate::numparse::{parse_i32_or_zero, parse_i32_spec, parse_u64_or_zero, parse_u64_spec};
use crate::sortpairs::{lemma_sorted_pairs_keyed, pair_leq, pairs_sorted, sort_pairs};
use crate::strutil::str_eq;

verus! {

/// The body the coupon website answers with.
#[derive(Debug, Clone)]
pub struct Payload {
    pub data: Vec<Coupon>,
}

/// One coupon as the website lists it.
#[derive(Debug, Clone)]
pub struct Coupon {
    pub created: Created,
    pub label: String,
    pub resources: Vec<Resource>,
    pub score: String,
    pub status: String,
}

/// The creation stamp of a coupon, as a decimal text.
#[derive(Debug, Clone)]
pub struct Created {
    pub full: String,
}

/// One resource a coupon grants, as the website lists it.
#[derive(Debug, Clone)]
pub struct Resource {
    pub quantity: String,
    pub sw_resource: SwResource,
}

/// The website's description of a resource kind.
#[derive(Debug, Clone)]
pub struct SwResource {
    pub category: String,
    pub code: String,
    pub label: String,
    pub label_i18n: String,
    pub priority: String,
    pub usable_in_coupon: String,
    pub visible: String,
}

/// A coupon as it is published: its code and its localised resources.
#[derive(Debug, Clone)]
pub struct LocalizedCoupon {
    pub coupon_code: String,
    pub resources: Vec<LocalizedResource>,
}

/// One granted resource, with its localised name.
#[derive(Debug, Clone)]
pub struct LocalizedResource {
    pub quantity: i32,
    pub label: String,
}

/// The dungeons the fixed-weekday reminders announce.
#[derive(Debug, Clone, Copy)]
pub enum DungeonType {
    Tartarus,
    SlimePhaseOne,
    SlimePhaseTwo,
}

/// What the notifiers push to the webhooks.
#[derive(Debug, Clone, Copy)]
pub enum SwcPushMessage {
    DungeonNotification { dungeon_type: DungeonType },
}

/// The English-to-localised resource name table the coupon messages use.
pub fn initialize_name_mapping() -> (r: Vec<(String, String)>)
    ensures
        r@.len() == 10,
        r@[0].0@ == "Energy"@ && r@[0].1@ == "能量"@,
        r@[1].0@ == "Crystal"@ && r@[1].1@ == "紅石"@,
        r@[2].0@ == "Mana"@ && r@[2].1@ == "藍石"@,
        r@[3].0@ == "Mystical scroll"@ && r@[3].1@ == "神秘召喚書"@,
        r@[4].0@ == "Light and dark scroll"@ && r@[4].1@ == "光暗召喚書"@,
        r@[5].0@ == "Fire scroll"@ && r@[5].1@ == "火屬性召喚書"@,
        r@[6].0@ == "Water scroll"@ && r@[6].1@ == "水屬性召喚書"@,
        r@[7].0@ == "Wind scroll"@ && r@[7].1@ == "風屬性召喚書"@,
        r@[8].0@ == "Rune"@ && r@[8].1@ == "符文"@,
        r@[9].0@ == "Sommoning stones"@ && r@[9].1@ == "特殊召喚"@,
{
    let mut r: Vec<(String, String)> = Vec::new();
    r.push(("Energy".to_owned(), "能量".to_owned()));
    r.push(("Crystal".to_owned(), "紅石".to_owned()));
    r.push(("Mana".to_owned(), "藍石".to_owned()));
    r.push(("Mystical scroll".to_owned(), "神秘召喚書".to_owned()));
    r.push(("Light and dark scroll".to_owned(), "光暗召喚書".to_owned()));
    r.push(("Fire scroll".to_owned(), "火屬性召喚書".to_owned()));
    r.push(("Water scroll".to_owned(), "水屬性召喚書".to_owned()));
    r.push(("Wind scroll".to_owned(), "風屬性召喚書".to_owned()));
    r.push(("Rune".to_owned(), "符文".to_owned()));
    r.push(("Sommoning stones".to_owned(), "特殊召喚".to_owned()));
    r
}

/// The localised name a key maps to: the first matching entry's, or the
/// empty text where none matches.
pub open spec fn lookup_label(mapping: Seq<(String, String)>, key: Seq<char>) -> Seq<char>
    decreases mapping.len(),
{
    if mapping.len() == 0 {
        Seq::empty()
    } else if mapping[0].0@ == key {
        mapping[0].1@
    } else {
        lookup_label(mapping.drop_first(), key)
    }
}

/// Looks a resource name up in the mapping.
pub fn resource_label(mapping: &Vec<(String, String)>, key: &str) -> (r: String)
    ensures
        r@ == lookup_label(mapping@, key@),
{
    let mut i: usize = 0;
    proof {
        assert(mapping@.skip(0) =~= mapping@);
    }
    while i < mapping.len()
        invariant
            i <= mapping@.len(),
            lookup_label(mapping@, key@) == lookup_label(mapping@.skip(i as int), key@),
        decreases mapping@.len() - i,
    {
        let ghost rest = mapping@.skip(i as int);
        proof {
            assert(rest[0] == mapping@[i as int]);
            assert(rest.drop_first() =~= mapping@.skip(i as int + 1));
        }
        if str_eq(mapping[i].0.as_str(), key) {
            return mapping[i].1.clone();
        }
        i += 1;
    }
    proof {
        assert(mapping@.skip(mapping@.len() as int) =~= Seq::<(String, String)>::empty());
    }
    String::new()
}

/// What a quantity text counts as, read the way `str::parse::<i32>` reads
/// it, zero standing in for a failed parse.
pub open spec fn quantity_of(s: Seq<char>) -> int {
    match parse_i32_spec(s) {
        Some(v) => v,
        None => 0,
    }
}

/// Whether one localised resource is the correct rendering of one listed
/// resource.
pub open spec fn localized_resource_ok(
    r: LocalizedResource,
    res: Resource,
    mapping: Seq<(String, String)>,
) -> bool {
    &&& r.quantity as int == quantity_of(res.quantity@)
    &&& r.label@ == lookup_label(mapping, res.sw_resource.label_i18n@)
}

/// Whether one published coupon is the correct rendering of one listed
/// coupon: its code is the coupon's label, and every resource is localised.
pub open spec fn localized_coupon_ok(
    lc: LocalizedCoupon,
    c: Coupon,
    mapping: Seq<(String, String)>,
) -> bool {
    &&& lc.coupon_code@ == c.label@
    &&& lc.resources@.len() == c.resources@.len()
    &&& forall|j: int|
        0 <= j < lc.resources@.len() ==> localized_resource_ok(
            #[trigger] lc.resources@[j],
            c.resources@[j],
            mapping,
        )
}

/// Renders one coupon for publication.
pub fn localize_coupon(c: &Coupon, mapping: &Vec<(String, String)>) -> (lc: LocalizedCoupon)
    ensures
        localized_coupon_ok(lc, *c, mapping@),
{
    let mut resources: Vec<LocalizedResource> = Vec::new();
    let mut j: usize = 0;
    while j < c.resources.len()
        invariant
            j <= c.resources@.len(),
            resources@.len() == j,
            forall|k: int|
                0 <= k < j ==> localized_resource_ok(
                    #[trigger] resources@[k],
                    c.resources@[k],
                    mapping@,
                ),
        decreases c.resources@.len() - j,
    {
        let res = &c.resources[j];
        resources.push(
            LocalizedResource {
                quantity: parse_i32_or_zero(res.quantity.as_str()),
                label: resource_label(mapping, res.sw_resource.label_i18n.as_str()),
            },
        );
        j += 1;
    }
    LocalizedCoupon { coupon_code: c.label.clone(), resources }
}

/// Whether a listed coupon counts: the website marks it `verified`.
pub open spec fn coupon_verified() -> spec_fn(Coupon) -> bool {
    |c: Coupon| c.status@ == "verified"@
}

/// The creation stamp a coupon is ordered by.
pub open spec fn created_key(c: Coupon) -> int {
    match parse_u64_spec(c.created.full@) {
        Some(v) => v as int,
        None => 0,
    }
}

/// Keeps the coupons the website marks `verified`, in order.
pub fn verified_coupons(coupons: Vec<Coupon>) -> (r: Vec<Coupon>)
    ensures
        r@ == coupons@.filter(coupon_verified()),
{
    broadcast use vstd::prelude::Seq::filter_distributes_over_add;

    let ghost orig = coupons@;
    let mut rest = coupons;
    let mut out: Vec<Coupon> = Vec::new();
    proof {
        assert(orig.subrange(0, 0) =~= Seq::<Coupon>::empty());
        assert(Seq::<Coupon>::empty().filter(coupon_verified()) =~= Seq::<Coupon>::empty());
        assert(rest@ =~= orig.subrange(0, orig.len() as int));
    }
    while rest.len() > 0
        invariant
            rest@.len() <= orig.len(),
            rest@ == orig.subrange(orig.len() - rest@.len(), orig.len() as int),
            out@ == orig.subrange(0, orig.len() - rest@.len()).filter(coupon_verified()),
        decreases rest@.len(),
    {
        let ghost i = orig.len() - rest@.len();
        let ghost pre = orig.subrange(0, i as int);
        let ghost next = orig.subrange(0, i as int + 1);
        proof {
            reveal_with_fuel(Seq::<_>::filter, 2);
            assert(rest@[0] == orig[i as int]);
            assert(next =~= pre + seq![orig[i as int]]);
            assert(seq![orig[i as int]].drop_last() =~= Seq::<Coupon>::empty());
        }
        let c = rest.remove(0);
        proof {
            assert(rest@ =~= orig.subrange(i as int + 1, orig.len() as int));
        }
        if str_eq(c.status.as_str(), "verified") {
            proof {
                reveal_with_fuel(Seq::<_>::filter, 2);
                assert((coupon_verified())(orig[i as int]));
                assert(seq![orig[i as int]].filter(coupon_verified()) =~= seq![orig[i as int]]);
            }
            out.push(c);
        } else {
            proof {
                reveal_with_fuel(Seq::<_>::filter, 2);
                assert(!(coupon_verified())(orig[i as int]));
                assert(seq![orig[i as int]].filter(coupon_verified()) =~= Seq::<Coupon>::empty());
                assert(out@ + Seq::<Coupon>::empty() =~= out@);
            }
        }
    }
    proof {
        assert(orig.subrange(0, orig.len() as int) =~= orig);
    }
    out
}

/// Whether coupon position `a` is published before position `b`: older
/// first, and list order between equal stamps.
pub open spec fn created_before(coupons: Seq<Coupon>, a: int, b: int) -> bool {
    created_key(coupons[a]) < created_key(coupons[b]) || (created_key(coupons[a]) == created_key(
        coupons[b],
    ) && a < b)
}

/// Whether `order` lists every position of `coupons` oldest first.
pub open spec fn is_created_order(coupons: Seq<Coupon>, order: Seq<usize>) -> bool {
    &&& order.len() == coupons.len()
    &&& (forall|i: int| 0 <= i < order.len() ==> (#[trigger] order[i]) < coupons.len())
    &&& (forall|i: int, j: int|
        0 <= i < j < order.len() ==> created_before(
            coupons,
            #[trigger] order[i] as int,
            #[trigger] order[j] as int,
        ))
}

/// Lists the positions of `coupons` oldest first, keeping the feed's order
/// between coupons with the same stamp.
pub fn order_by_created(coupons: &Vec<Coupon>) -> (order: Vec<usize>)
    ensures
        is_created_order(coupons@, order@),
{
    let n = coupons.len();
    let mut pairs: Vec<(i128, usize)> = Vec::new();
    let mut i: usize = 0;
    while i < n
        invariant
            i <= n,
            n == coupons@.len(),
            pairs@.len() == i,
            forall|k: int|
                0 <= k < i ==> (#[trigger] pairs@[k]).0 == created_key(coupons@[k])
                    && pairs@[k].1 == k,
        decreases n - i,
    {
        let key = parse_u64_or_zero(coupons[i].created.full.as_str());
        pairs.push((key as i128, i));
        i += 1;
    }
    let ghost initial = pairs@;
    let ghost keys = Seq::new(initial.len(), |k: int| initial[k].0);
    sort_pairs(&mut pairs);
    proof {
        lemma_sorted_pairs_keyed(initial, pairs@, keys);
        assert forall|k: int| 0 <= k < pairs@.len() implies (#[trigger] pairs@[k]).1
            < coupons@.len() && pairs@[k].0 == created_key(coupons@[pairs@[k].1 as int]) by {
            assert(keys[pairs@[k].1 as int] == initial[pairs@[k].1 as int].0);
        }
    }
    let mut order: Vec<usize> = Vec::new();
    let mut j: usize = 0;
    while j < pairs.len()
        invariant
            j <= pairs@.len(),
            pairs@.len() == n,
            n == coupons@.len(),
            order@.len() == j,
            forall|k: int|
                0 <= k < pairs@.len() ==> (#[trigger] pairs@[k]).1 < n && pairs@[k].0
                    == created_key(coupons@[pairs@[k].1 as int]),
            pairs_sorted(pairs@),
            forall|a: int, b: int| 0 <= a < b < pairs@.len() ==> pairs@[a] != pairs@[b],
            forall|k: int| 0 <= k < j ==> #[trigger] order@[k] == pairs@[k].1,
        decreases pairs@.len() - j,
    {
        let idx = pairs[j].1;
        order.push(idx);
        j += 1;
    }
    proof {
        assert forall|a: int, b: int| 0 <= a < b < order@.len() implies created_before(
            coupons@,
            order@[a] as int,
            order@[b] as int,
        ) by {
            assert(pair_leq(pairs@[a], pairs@[b]));
            assert(pairs@[a] != pairs@[b]);
        }
    }
    order
}

/// Prepares the feed for publication: drops the coupons not marked
/// `verified`, orders the rest oldest first, and localises each.
pub fn prepare_coupons(payload: Payload, mapping: &Vec<(String, String)>) -> (r: Vec<
    LocalizedCoupon,
>)
    ensures
        exists|order: Seq<usize>|
            #![trigger is_created_order(payload.data@.filter(coupon_verified()), order)]
            {
                let kept = payload.data@.filter(coupon_verified());
                &&& is_created_order(kept, order)
                &&& r@.len() == kept.len()
                &&& forall|i: int|
                    0 <= i < r@.len() ==> localized_coupon_ok(
                        #[trigger] r@[i],
                        kept[order[i] as int],
                        mapping@,
                    )
            },
{
    let kept = verified_coupons(payload.data);
    let order = order_by_created(&kept);
    let mut r: Vec<LocalizedCoupon> = Vec::new();
    let mut i: usize = 0;
    while i < order.len()
        invariant
            i <= order@.len(),
            is_created_order(kept@, order@),
            r@.len() == i,
            forall|k: int|
                0 <= k < i ==> localized_coupon_ok(
                    #[trigger] r@[k],
                    kept@[order@[k] as int],
                    mapping@,
                ),
        decreases order@.len() - i,
    {
        let idx = order[i];
        r.push(localize_coupon(&kept[idx], mapping));
        i += 1;
    }
    r
}

/// Fresh against a published list means no published coupon carries the
/// same code.
pub open spec fn fresh_against(published: Seq<LocalizedCoupon>) -> spec_fn(LocalizedCoupon) -> bool {
    |c: LocalizedCoupon| forall|k: int| 0 <= k < published.len() ==> (#[trigger] published[k]).coupon_code@ != c.coupon_code@
}

/// Whether some published coupon carries this code.
fn code_published(published: &Vec<LocalizedCoupon>, code: &str) -> (r: bool)
    ensures
        r <==> exists|k: int|
            0 <= k < published@.len() && (#[trigger] published@[k]).coupon_code@ == code@,
{
    let mut i: usize = 0;
    while i < published.len()
        invariant
            i <= published@.len(),
            forall|k: int| 0 <= k < i ==> (#[trigger] published@[k]).coupon_code@ != code@,
        decreases published@.len() - i,
    {
        if str_eq(published[i].coupon_code.as_str(), code) {
            return true;
        }
        i += 1;
    }
    false
}

/// Whether two published coupons carry the same code and resources.
pub open spec fn same_coupon_content(a: LocalizedCoupon, b: LocalizedCoupon) -> bool {
    a.coupon_code@ == b.coupon_code@ && a.resources@ == b.resources@
}

/// Copies one published coupon.
fn clone_localized_coupon(c: &LocalizedCoupon) -> (r: LocalizedCoupon)
    ensures
        same_coupon_content(r, *c),
{
    let mut resources: Vec<LocalizedResource> = Vec::new();
    let mut i: usize = 0;
    while i < c.resources.len()
        invariant
            i <= c.resources@.len(),
            resources@.len() == i,
            forall|k: int| 0 <= k < i ==> #[trigger] resources@[k] == c.resources@[k],
        decreases c.resources@.len() - i,
    {
        let res = &c.resources[i];
        resources.push(LocalizedResource { quantity: res.quantity, label: res.label.clone() });
        i += 1;
    }
    proof {
        assert(resources@ =~= c.resources@);
    }
    LocalizedCoupon { coupon_code: c.coupon_code.clone(), resources }
}

/// Keeps, publishes and returns only the incoming coupons whose codes have
/// not been published before; the published list is replaced by exactly the
/// coupons that go out now.
pub fn sanitize_coupons(
    published: &mut Vec<LocalizedCoupon>,
    incoming: Vec<LocalizedCoupon>,
) -> (r: Vec<LocalizedCoupon>)
    ensures
        r@ == incoming@.filter(fresh_against(old(published)@)),
        final(published)@.len() == r@.len(),
        forall|i: int|
            0 <= i < r@.len() ==> same_coupon_content(#[trigger] final(published)@[i], r@[i]),
{
    broadcast use vstd::prelude::Seq::filter_distributes_over_add;

    let ghost before = published@;
    let ghost orig = incoming@;
    let mut rest = incoming;
    let mut out: Vec<LocalizedCoupon> = Vec::new();
    proof {
        assert(orig.subrange(0, 0) =~= Seq::<LocalizedCoupon>::empty());
        assert(Seq::<LocalizedCoupon>::empty().filter(fresh_against(before)) =~= Seq::<
            LocalizedCoupon,
        >::empty());
        assert(rest@ =~= orig.subrange(0, orig.len() as int));
    }
    while rest.len() > 0
        invariant
            rest@.len() <= orig.len(),
            published@ == before,
            rest@ == orig.subrange(orig.len() - rest@.len(), orig.len() as int),
            out@ == orig.subrange(0, orig.len() - rest@.len()).filter(fresh_against(before)),
        decreases rest@.len(),
    {
        let ghost i = orig.len() - rest@.len();
        let ghost pre = orig.subrange(0, i as int);
        let ghost next = orig.subrange(0, i as int + 1);
        proof {
            reveal_with_fuel(Seq::<_>::filter, 2);
            assert(rest@[0] == orig[i as int]);
            assert(next =~= pre + seq![orig[i as int]]);
            assert(seq![orig[i as int]].drop_last() =~= Seq::<LocalizedCoupon>::empty());
        }
        let c = rest.remove(0);
        proof {
            assert(rest@ =~= orig.subrange(i as int + 1, orig.len() as int));
        }
        if !code_published(published, c.coupon_code.as_str()) {
            proof {
                reveal_with_fuel(Seq::<_>::filter, 2);
                assert((fresh_against(before))(orig[i as int]));
                assert(seq![orig[i as int]].filter(fresh_against(before)) =~= seq![
                    orig[i as int],
                ]);
            }
            out.push(c);
        } else {
            proof {
                reveal_with_fuel(Seq::<_>::filter, 2);
                assert(!(fresh_against(before))(orig[i as int]));
                assert(seq![orig[i as int]].filter(fresh_against(before)) =~= Seq::<
                    LocalizedCoupon,
                >::empty());
                assert(out@ + Seq::<LocalizedCoupon>::empty() =~= out@);
            }
        }
    }
    proof {
        assert(orig.subrange(0, orig.len() as int) =~= orig);
    }
    published.clear();
    let mut i: usize = 0;
    while i < out.len()
        invariant
            i <= out@.len(),
            published@.len() == i,
            forall|k: int| 0 <= k < i ==> same_coupon_content(#[trigger] published@[k], out@[k]),
            out@ == orig.filter(fresh_against(before)),
        decreases out@.len() - i,
    {
        let copy = clone_localized_coupon(&out[i]);
        published.push(copy);
        i += 1;
    }
    out
}

} // verus!

//! The catalogue of bell-casting methods: which methods a comparison covers
//! and how they divide into ancient and modern processes.

use vstd::prelude::*;
use crate::text::str_equals;

verus! {

broadcast use vstd::seq_lib::group_seq_properties;

/// Number of casting methods in the catalogue.
pub const CASTING_METHOD_COUNT: usize = 8;

/// The era a casting method belongs to.
#[derive(Debug, Clone, Copy, PartialEq, Eq, Structural)]
pub enum CastingEra {
    Ancient,
    Modern,
}

impl CastingEra {
    /// The key of this era.
    pub open spec fn spec_key(self) -> Seq<char> {
        match self {
            CastingEra::Ancient => "ancient"@,
            CastingEra::Modern => "modern"@,
        }
    }

    /// The key of this era, as the catalogue records it.
    pub fn key(&self) -> (key: &'static str)
        ensures
            key@ == self.spec_key(),
    {
        match self {
            CastingEra::Ancient => "ancient",
            CastingEra::Modern => "modern",
        }
    }
}

/// The keys of the catalogued methods, in catalogue order.
pub open spec fn casting_method_keys() -> Seq<Seq<char>> {
    seq![
        "ancient_sand_lost_wax"@,
        "ancient_clay_piece"@,
        "ancient_sand_mold"@,
        "modern_sand_green"@,
        "modern_resin_sand"@,
        "modern_investment_casting"@,
        "modern_centrifugal"@,
        "modern_low_pressure"@,
    ]
}

/// The era of the method at `index` in the catalogue: the first three are
/// ancient processes, the rest modern ones.
pub open spec fn casting_method_era_at(index: int) -> CastingEra {
    if index < 3 {
        CastingEra::Ancient
    } else {
        CastingEra::Modern
    }
}

/// The catalogue positions, in order.
pub open spec fn catalogue_positions() -> Seq<usize> {
    Seq::new(CASTING_METHOD_COUNT as nat, |i: int| i as usize)
}

/// The texts of a list of strings.
pub open spec fn string_views(list: Seq<String>) -> Seq<Seq<char>> {
    list.map_values(|s: String| s@)
}

/// Whether a request for methods covers the method with key `key`: no list,
/// or an empty one, asks for every method; otherwise the key must be listed.
pub open spec fn request_covers(requested: Option<Seq<Seq<char>>>, key: Seq<char>) -> bool {
    match requested {
        None => true,
        Some(list) => list.len() == 0 || list.contains(key),
    }
}

/// The texts of an optional list of requested keys.
pub open spec fn requested_views(requested: Option<Vec<String>>) -> Option<Seq<Seq<char>>> {
    match requested {
        None => None,
        Some(list) => Some(string_views(list@)),
    }
}

/// The catalogue positions of the methods a request covers, in catalogue order.
pub open spec fn selected_positions(requested: Option<Seq<Seq<char>>>) -> Seq<usize> {
    catalogue_positions().filter(|i: usize| request_covers(requested, casting_method_keys()[i as int]))
}

/// The positions among `positions` whose method belongs to `era`, in the
/// order they are given.
pub open spec fn positions_of_era(positions: Seq<usize>, era: CastingEra) -> Seq<usize> {
    positions.filter(|i: usize| casting_method_era_at(i as int) == era)
}

/// Filtering keeps exactly the elements that satisfy the predicate.
proof fn lemma_filter_members<A>(s: Seq<A>, pred: spec_fn(A) -> bool, x: A)
    ensures
        s.filter(pred).contains(x) <==> (s.contains(x) && pred(x)),
{
    broadcast use vstd::seq_lib::group_filter_ensures;
    if s.filter(pred).contains(x) {
        let k = choose|k: int| 0 <= k < s.filter(pred).len() && s.filter(pred)[k] == x;
        s.lemma_filter_pred(pred, k);
        s.lemma_filter_contains_rev(pred, x);
    }
    if s.contains(x) && pred(x) {
        let k = choose|k: int| 0 <= k < s.len() && s[k] == x;
        s.lemma_filter_contains(pred, k);
    }
}

/// A filter of a strictly increasing sequence is strictly increasing.
proof fn lemma_filter_increasing(s: Seq<usize>, pred: spec_fn(usize) -> bool)
    requires
        forall|i: int, j: int| 0 <= i < j < s.len() ==> s[i] < s[j],
    ensures
        forall|i: int, j: int| 0 <= i < j < s.filter(pred).len() ==> s.filter(pred)[i] < s.filter(pred)[j],
        forall|i: int| 0 <= i < s.filter(pred).len() ==> s.contains(#[trigger] s.filter(pred)[i]),
    decreases s.len(),
{
    reveal(Seq::filter);
    if s.len() > 0 {
        let rest = s.drop_last();
        lemma_filter_increasing(rest, pred);
        if pred(s.last()) {
            assert forall|i: int| 0 <= i < rest.filter(pred).len() implies rest.filter(pred)[i] < s.last() by {
                let x = rest.filter(pred)[i];
                assert(rest.contains(x));
                let k = choose|k: int| 0 <= k < rest.len() && rest[k] == x;
                assert(s[k] == x);
            }
            assert forall|i: int| 0 <= i < s.filter(pred).len() implies s.contains(#[trigger] s.filter(pred)[i]) by {
                if i < rest.filter(pred).len() {
                    let x = rest.filter(pred)[i];
                    assert(rest.contains(x));
                    let k = choose|k: int| 0 <= k < rest.len() && rest[k] == x;
                    assert(s[k] == x);
                } else {
                    assert(s[s.len() - 1] == s.last());
                }
            }
        } else {
            assert forall|i: int| 0 <= i < s.filter(pred).len() implies s.contains(#[trigger] s.filter(pred)[i]) by {
                let x = rest.filter(pred)[i];
                assert(rest.contains(x));
                let k = choose|k: int| 0 <= k < rest.len() && rest[k] == x;
                assert(s[k] == x);
            }
        }
    }
}

/// A comparison covers, in catalogue order and without repetition, exactly
/// the catalogued methods its request names, or all of them when it names
/// none.
pub proof fn lemma_selection_exact(requested: Option<Seq<Seq<char>>>)
    ensures
        forall|i: int, j: int| 0 <= i < j < selected_positions(requested).len()
            ==> selected_positions(requested)[i] < selected_positions(requested)[j],
        forall|p: usize| selected_positions(requested).contains(p)
            <==> (p < CASTING_METHOD_COUNT && request_covers(requested, casting_method_keys()[p as int])),
{
    let pred = |i: usize| request_covers(requested, casting_method_keys()[i as int]);
    lemma_filter_increasing(catalogue_positions(), pred);
    assert forall|p: usize| selected_positions(requested).contains(p)
        <==> (p < CASTING_METHOD_COUNT && request_covers(requested, casting_method_keys()[p as int])) by {
        lemma_filter_members(catalogue_positions(), pred, p);
        if p < CASTING_METHOD_COUNT {
            assert(catalogue_positions()[p as int] == p);
        }
    }
}

/// A request that lists keys covers exactly the catalogued methods whose
/// keys it lists: a method is selected iff its key is in the list.
pub proof fn lemma_listed_methods_selected(list: Seq<Seq<char>>)
    requires
        list.len() > 0,
    ensures
        forall|p: usize| #[trigger] selected_positions(Some(list)).contains(p)
            <==> (p < CASTING_METHOD_COUNT && list.contains(casting_method_keys()[p as int])),
        forall|p: usize| p < CASTING_METHOD_COUNT && list.contains(casting_method_keys()[p as int])
            ==> #[trigger] selected_positions(Some(list)).contains(p),
{
    lemma_selection_exact(Some(list));
}

/// The catalogue's keys are all different, and a method's key starts with
/// "ancient" exactly when the method is an ancient process.
pub proof fn lemma_keys_distinct_and_name_their_era()
    ensures
        casting_method_keys().len() == CASTING_METHOD_COUNT,
        forall|i: int, j: int| 0 <= i < j < CASTING_METHOD_COUNT
            ==> casting_method_keys()[i] != casting_method_keys()[j],
        forall|i: int| 0 <= i < CASTING_METHOD_COUNT
            ==> (#[trigger] casting_method_keys()[i].take(7) == "ancient"@
                <==> casting_method_era_at(i) == CastingEra::Ancient),
{
    reveal_strlit("ancient_sand_lost_wax");
    assert("ancient_sand_lost_wax"@.len() == 21);
    reveal_strlit("ancient_clay_piece");
    assert("ancient_clay_piece"@.len() == 18);
    reveal_strlit("ancient_sand_mold");
    assert("ancient_sand_mold"@.len() == 17);
    reveal_strlit("modern_sand_green");
    assert("modern_sand_green"@.len() == 17);
    reveal_strlit("modern_resin_sand");
    assert("modern_resin_sand"@.len() == 17);
    reveal_strlit("modern_investment_casting");
    assert("modern_investment_casting"@.len() == 25);
    reveal_strlit("modern_centrifugal");
    assert("modern_centrifugal"@.len() == 18);
    reveal_strlit("modern_low_pressure");
    assert("modern_low_pressure"@.len() == 19);
    reveal_strlit("ancient");
    assert("ancient"@.len() == 7);
    assert("ancient_clay_piece"@ != "ancient_sand_lost_wax"@);
    assert("ancient_sand_mold"@ != "ancient_sand_lost_wax"@);
    assert("ancient_sand_mold"@ != "ancient_clay_piece"@);
    assert("modern_sand_green"@ != "ancient_sand_lost_wax"@);
    assert("modern_sand_green"@ != "ancient_clay_piece"@);
    assert("modern_sand_green"@[0] != "ancient_sand_mold"@[0]);
    assert("modern_sand_green"@ != "ancient_sand_mold"@);
    assert("modern_resin_sand"@ != "ancient_sand_lost_wax"@);
    assert("modern_resin_sand"@ != "ancient_clay_piece"@);
    assert("modern_resin_sand"@[0] != "ancient_sand_mold"@[0]);
    assert("modern_resin_sand"@ != "ancient_sand_mold"@);
    assert("modern_resin_sand"@[7] != "modern_sand_green"@[7]);
    assert("modern_resin_sand"@ != "modern_sand_green"@);
    assert("modern_investment_casting"@ != "ancient_sand_lost_wax"@);
    assert("modern_investment_casting"@ != "ancient_clay_piece"@);
    assert("modern_investment_casting"@ != "ancient_sand_mold"@);
    assert("modern_investment_casting"@ != "modern_sand_green"@);
    assert("modern_investment_casting"@ != "modern_resin_sand"@);
    assert("modern_centrifugal"@ != "ancient_sand_lost_wax"@);
    assert("modern_centrifugal"@[0] != "ancient_clay_piece"@[0]);
    assert("modern_centrifugal"@ != "ancient_clay_piece"@);
    assert("modern_centrifugal"@ != "ancient_sand_mold"@);
    assert("modern_centrifugal"@ != "modern_sand_green"@);
    assert("modern_centrifugal"@ != "modern_resin_sand"@);
    assert("modern_centrifugal"@ != "modern_investment_casting"@);
    assert("modern_low_pressure"@ != "ancient_sand_lost_wax"@);
    assert("modern_low_pressure"@ != "ancient_clay_piece"@);
    assert("modern_low_pressure"@ != "ancient_sand_mold"@);
    assert("modern_low_pressure"@ != "modern_sand_green"@);
    assert("modern_low_pressure"@ != "modern_resin_sand"@);
    assert("modern_low_pressure"@ != "modern_investment_casting"@);
    assert("modern_low_pressure"@ != "modern_centrifugal"@);
    assert(casting_method_keys()[0].take(7) =~= "ancient"@);
    assert(casting_method_keys()[1].take(7) =~= "ancient"@);
    assert(casting_method_keys()[2].take(7) =~= "ancient"@);
    assert(casting_method_keys()[3].take(7)[0] != "ancient"@[0]);
    assert(casting_method_keys()[4].take(7)[0] != "ancient"@[0]);
    assert(casting_method_keys()[5].take(7)[0] != "ancient"@[0]);
    assert(casting_method_keys()[6].take(7)[0] != "ancient"@[0]);
    assert(casting_method_keys()[7].take(7)[0] != "ancient"@[0]);
}

/// The two eras are recorded under different keys.
pub proof fn lemma_era_keys_distinct()
    ensures
        CastingEra::Ancient.spec_key() != CastingEra::Modern.spec_key(),
{
    reveal_strlit("ancient");
    assert("ancient"@.len() == 7);
    reveal_strlit("modern");
    assert("modern"@.len() == 6);
}

/// A request with no list, or with an empty one, covers the whole catalogue.
pub proof fn lemma_empty_request_selects_all()
    ensures
        selected_positions(None) == catalogue_positions(),
        selected_positions(Some(Seq::<Seq<char>>::empty())) == catalogue_positions(),
{
    assert forall|requested: Option<Seq<Seq<char>>>|
        requested == None::<Seq<Seq<char>>> || requested == Some(Seq::<Seq<char>>::empty())
        implies #[trigger] selected_positions(requested) == catalogue_positions() by {
        let pred = |i: usize| request_covers(requested, casting_method_keys()[i as int]);
        lemma_filter_all(catalogue_positions(), pred);
    }
    assert(selected_positions(None) == catalogue_positions());
    assert(selected_positions(Some(Seq::<Seq<char>>::empty())) == catalogue_positions());
}

/// Filtering by a predicate that every element satisfies changes nothing.
pub proof fn lemma_filter_all<A>(s: Seq<A>, pred: spec_fn(A) -> bool)
    requires
        forall|i: int| 0 <= i < s.len() ==> pred(#[trigger] s[i]),
    ensures
        s.filter(pred) == s,
    decreases s.len(),
{
    reveal(Seq::filter);
    if s.len() > 0 {
        lemma_filter_all(s.drop_last(), pred);
        assert(s.drop_last().push(s.last()) =~= s);
    }
}

/// A request that names only keys outside the catalogue covers no method.
pub proof fn lemma_unknown_keys_select_nothing(requested: Seq<Seq<char>>)
    requires
        requested.len() > 0,
        forall|i: int| 0 <= i < requested.len() ==> !casting_method_keys().contains(#[trigger] requested[i]),
    ensures
        selected_positions(Some(requested)).len() == 0,
{
    lemma_selection_exact(Some(requested));
    if selected_positions(Some(requested)).len() > 0 {
        let p = selected_positions(Some(requested))[0];
        assert(selected_positions(Some(requested)).contains(p));
        let key = casting_method_keys()[p as int];
        assert(requested.contains(key));
        let k = choose|k: int| 0 <= k < requested.len() && requested[k] == key;
        assert(casting_method_keys().contains(key));
    }
}

/// The ancient and the modern parts of a list of catalogue positions share
/// nothing and together hold every position: each position lands in the
/// part of its era, and the part sizes add up to the list's size.
pub proof fn lemma_era_partition_complete(positions: Seq<usize>)
    ensures
        positions_of_era(positions, CastingEra::Ancient).len() + positions_of_era(positions, CastingEra::Modern).len()
            == positions.len(),
        forall|p: usize| positions.contains(p) ==>
            (positions_of_era(positions, CastingEra::Ancient).contains(p) <==> casting_method_era_at(p as int) == CastingEra::Ancient),
        forall|p: usize| positions.contains(p) ==>
            (positions_of_era(positions, CastingEra::Modern).contains(p) <==> casting_method_era_at(p as int) == CastingEra::Modern),
        forall|p: usize| !(positions_of_era(positions, CastingEra::Ancient).contains(p)
            && positions_of_era(positions, CastingEra::Modern).contains(p)),
    decreases positions.len(),
{
    let is_ancient = |i: usize| casting_method_era_at(i as int) == CastingEra::Ancient;
    let is_modern = |i: usize| casting_method_era_at(i as int) == CastingEra::Modern;
    reveal(Seq::filter);
    if positions.len() > 0 {
        lemma_era_partition_complete(positions.drop_last());
    }
    assert forall|p: usize| positions.contains(p) implies
        (positions_of_era(positions, CastingEra::Ancient).contains(p) <==> casting_method_era_at(p as int) == CastingEra::Ancient) by {
        lemma_filter_members(positions, is_ancient, p);
    }
    assert forall|p: usize| positions.contains(p) implies
        (positions_of_era(positions, CastingEra::Modern).contains(p) <==> casting_method_era_at(p as int) == CastingEra::Modern) by {
        lemma_filter_members(positions, is_modern, p);
    }
    assert forall|p: usize| !(positions_of_era(positions, CastingEra::Ancient).contains(p)
        && positions_of_era(positions, CastingEra::Modern).contains(p)) by {
        lemma_filter_members(positions, is_ancient, p);
        lemma_filter_members(positions, is_modern, p);
    }
}

/// The key of the method at `index` in the catalogue.
pub fn casting_method_key(index: usize) -> (key: &'static str)
    requires
        index < CASTING_METHOD_COUNT,
    ensures
        key@ == casting_method_keys()[index as int],
{
    if index == 0 {
        "ancient_sand_lost_wax"
    } else if index == 1 {
        "ancient_clay_piece"
    } else if index == 2 {
        "ancient_sand_mold"
    } else if index == 3 {
        "modern_sand_green"
    } else if index == 4 {
        "modern_resin_sand"
    } else if index == 5 {
        "modern_investment_casting"
    } else if index == 6 {
        "modern_centrifugal"
    } else {
        "modern_low_pressure"
    }
}

/// The era of the method at `index` in the catalogue.
pub fn casting_method_era(index: usize) -> (era: CastingEra)
    requires
        index < CASTING_METHOD_COUNT,
    ensures
        era == casting_method_era_at(index as int),
{
    if index < 3 {
        CastingEra::Ancient
    } else {
        CastingEra::Modern
    }
}

/// The keys of all catalogued casting methods, in catalogue order.
pub fn get_casting_method_key_list() -> (keys: Vec<String>)
    ensures
        string_views(keys@) == casting_method_keys(),
{
    let mut keys: Vec<String> = Vec::new();
    let mut index: usize = 0;
    while index < CASTING_METHOD_COUNT
        invariant
            index <= CASTING_METHOD_COUNT,
            string_views(keys@) == casting_method_keys().take(index as int),
        decreases CASTING_METHOD_COUNT - index,
    {
        let key = casting_method_key(index);
        let text = key.to_string();
        assert(text@ == key@);
        let ghost before = keys@;
        keys.push(text);
        assert(string_views(keys@) =~= string_views(before).push(text@));
        assert(string_views(keys@) =~= casting_method_keys().take(index + 1));
        index = index + 1;
    }
    assert(casting_method_keys().take(CASTING_METHOD_COUNT as int) =~= casting_method_keys());
    keys
}

/// Whether `key` is one of the listed strings.
fn list_contains(list: &Vec<String>, key: &str) -> (found: bool)
    ensures
        found == string_views(list@).contains(key@),
{
    let mut index: usize = 0;
    while index < list.len()
        invariant
            index <= list.len(),
            forall|j: int| 0 <= j < index ==> list@[j]@ != key@,
        decreases list.len() - index,
    {
        if str_equals(list[index].as_str(), key) {
            assert(string_views(list@)[index as int] == key@);
            return true;
        }
        index = index + 1;
    }
    assert forall|j: int| 0 <= j < string_views(list@).len() implies string_views(list@)[j] != key@ by {
        assert(list@[j]@ != key@);
    }
    false
}

/// Whether the request covers the method with key `key`.
fn covers(requested: &Option<Vec<String>>, key: &str) -> (covered: bool)
    ensures
        covered == request_covers(requested_views(*requested), key@),
{
    match requested {
        None => true,
        Some(list) => list.len() == 0 || list_contains(list, key),
    }
}

/// The catalogue positions of the methods a comparison request covers, in
/// catalogue order: every method when no list or an empty list is given,
/// otherwise the methods whose keys are listed; unknown keys select nothing.
pub fn select_casting_methods(requested: &Option<Vec<String>>) -> (positions: Vec<usize>)
    ensures
        positions@ == selected_positions(requested_views(*requested)),
{
    let ghost req = requested_views(*requested);
    let ghost pred = |i: usize| request_covers(req, casting_method_keys()[i as int]);
    let mut positions: Vec<usize> = Vec::new();
    let mut index: usize = 0;
    while index < CASTING_METHOD_COUNT
        invariant
            index <= CASTING_METHOD_COUNT,
            req == requested_views(*requested),
            pred == (|i: usize| request_covers(req, casting_method_keys()[i as int])),
            positions@ == catalogue_positions().take(index as int).filter(pred),
        decreases CASTING_METHOD_COUNT - index,
    {
        assert(catalogue_positions().take(index + 1) =~= catalogue_positions().take(index as int).push(index));
        proof {
            catalogue_positions().take(index as int).lemma_filter_push(index, pred);
        }
        if covers(requested, casting_method_key(index)) {
            positions.push(index);
        }
        index = index + 1;
    }
    assert(catalogue_positions().take(CASTING_METHOD_COUNT as int) =~= catalogue_positions());
    positions
}

/// Splits catalogue positions into the ancient and the modern methods, each
/// part in the order given.
pub fn partition_by_era(positions: &Vec<usize>) -> (parts: (Vec<usize>, Vec<usize>))
    requires
        forall|j: int| 0 <= j < positions@.len() ==> #[trigger] positions@[j] < CASTING_METHOD_COUNT,
    ensures
        parts.0@ == positions_of_era(positions@, CastingEra::Ancient),
        parts.1@ == positions_of_era(positions@, CastingEra::Modern),
{
    let ghost is_ancient = |i: usize| casting_method_era_at(i as int) == CastingEra::Ancient;
    let ghost is_modern = |i: usize| casting_method_era_at(i as int) == CastingEra::Modern;
    let mut ancient: Vec<usize> = Vec::new();
    let mut modern: Vec<usize> = Vec::new();
    let mut index: usize = 0;
    while index < positions.len()
        invariant
            index <= positions.len(),
            forall|j: int| 0 <= j < positions@.len() ==> #[trigger] positions@[j] < CASTING_METHOD_COUNT,
            is_ancient == (|i: usize| casting_method_era_at(i as int) == CastingEra::Ancient),
            is_modern == (|i: usize| casting_method_era_at(i as int) == CastingEra::Modern),
            ancient@ == positions@.take(index as int).filter(is_ancient),
            modern@ == positions@.take(index as int).filter(is_modern),
        decreases positions.len() - index,
    {
        let position = positions[index];
        assert(positions@.take(index + 1) =~= positions@.take(index as int).push(position));
        proof {
            positions@.take(index as int).lemma_filter_push(position, is_ancient);
            positions@.take(index as int).lemma_filter_push(position, is_modern);
        }
        match casting_method_era(position) {
            CastingEra::Ancient => ancient.push(position),
            CastingEra::Modern => modern.push(position),
        }
        index = index + 1;
    }
    assert(positions@.take(positions@.len() as int) =~= positions@);
    (ancient, modern)
}

/// The trade-offs between the casting processes, one piece of advice per entry.
pub open spec fn trade_off_lines() -> Seq<Seq<char>> {
    seq![
        "追求极致文化价值与艺术表现力 → 选择古代失蜡法或分范法，接受高成本和长周期"@,
        "追求音准一致性与量产能力 → 选择现代树脂砂或低压铸造，牺牲部分手工艺术感"@,
        "追求极低缺陷率与超长寿命 → 选择现代离心铸造或低压铸造，但花纹表现力受限"@,
        "大尺寸 (>20吨) 巨型钟 → 古代分范法(唯一历史验证方案)或现代树脂砂铸造"@,
        "小尺寸精密花纹纪念钟 → 现代熔模精密铸造，可达镜面效果"@,
        "预算有限的普及型佛钟 → 现代湿砂型铸造，成本最低"@,
        "顶级音质定制编钟 → 现代低压铸造(最佳声学组织) + 手工调音，质量超越古代"@,
    ]
}

/// The trade-offs between the casting processes: which process to choose
/// for cultural value, consistency, longevity, size, fine detail, budget and
/// top sound quality.
pub fn generate_trade_offs() -> (advice: Vec<String>)
    ensures
        string_views(advice@) == trade_off_lines(),
{
    let mut advice: Vec<String> = Vec::new();
    advice.push("追求极致文化价值与艺术表现力 → 选择古代失蜡法或分范法，接受高成本和长周期".to_string());
    advice.push("追求音准一致性与量产能力 → 选择现代树脂砂或低压铸造，牺牲部分手工艺术感".to_string());
    advice.push("追求极低缺陷率与超长寿命 → 选择现代离心铸造或低压铸造，但花纹表现力受限".to_string());
    advice.push("大尺寸 (>20吨) 巨型钟 → 古代分范法(唯一历史验证方案)或现代树脂砂铸造".to_string());
    advice.push("小尺寸精密花纹纪念钟 → 现代熔模精密铸造，可达镜面效果".to_string());
    advice.push("预算有限的普及型佛钟 → 现代湿砂型铸造，成本最低".to_string());
    advice.push("顶级音质定制编钟 → 现代低压铸造(最佳声学组织) + 手工调音，质量超越古代".to_string());
    assert(string_views(advice@) =~= trade_off_lines());
    advice
}

} // verus!

//! Choosing casting alloys: the material that suits a kind of bell, and the
//! alloys a comparison covers.

use vstd::prelude::*;
use crate::casting::string_views;
use crate::text::{has_substring, str_contains, str_equals};

verus! {

broadcast use vstd::seq_lib::group_seq_properties;

/// The key of the material used when a bell's kind gives no better choice.
pub const DEFAULT_MATERIAL_KEY: &'static str = "bronze_qing_qin";

/// The material key suited to a kind of bell: chime bells (编钟) take
/// pre-Qin tin bronze, court bells (朝钟) and the Yongle bell (永乐) the Ming
/// low-tin bronze, Buddhist bells (佛钟) the Qing bronze, and every other
/// kind the default tin bronze. The earlier rule wins when several match.
pub open spec fn material_key_for(bell_type: Seq<char>) -> Seq<char> {
    if has_substring(bell_type, "编钟"@) {
        "bronze_qing_qin"@
    } else if has_substring(bell_type, "朝钟"@) || has_substring(bell_type, "永乐"@) {
        "bronze_yong_le"@
    } else if has_substring(bell_type, "佛钟"@) {
        "bronze_fo_zhong"@
    } else {
        "bronze_qing_qin"@
    }
}

/// The key of the material suited to a bell of the given kind.
pub fn material_key_for_bell_type(bell_type: &str) -> (key: &'static str)
    ensures
        key@ == material_key_for(bell_type@),
{
    if str_contains(bell_type, "编钟") {
        "bronze_qing_qin"
    } else if str_contains(bell_type, "朝钟") || str_contains(bell_type, "永乐") {
        "bronze_yong_le"
    } else if str_contains(bell_type, "佛钟") {
        "bronze_fo_zhong"
    } else {
        DEFAULT_MATERIAL_KEY
    }
}

/// The alloys a comparison covers: every available alloy when none is
/// requested, otherwise the requested keys that name an available alloy,
/// in the order and with the repetitions of the request.
pub open spec fn selected_alloy_keys(requested: Seq<Seq<char>>, available: Seq<Seq<char>>) -> Seq<Seq<char>> {
    if requested.len() == 0 {
        available
    } else {
        requested.filter(|key: Seq<char>| available.contains(key))
    }
}

/// Every alloy a comparison covers is an available one.
pub proof fn lemma_selected_alloys_available(requested: Seq<Seq<char>>, available: Seq<Seq<char>>)
    ensures
        forall|i: int| 0 <= i < selected_alloy_keys(requested, available).len()
            ==> available.contains(#[trigger] selected_alloy_keys(requested, available)[i]),
{
    broadcast use vstd::seq_lib::group_filter_ensures;
    if requested.len() > 0 {
        let is_available = |key: Seq<char>| available.contains(key);
        assert forall|i: int| 0 <= i < selected_alloy_keys(requested, available).len()
            implies available.contains(#[trigger] selected_alloy_keys(requested, available)[i]) by {
            requested.lemma_filter_pred(is_available, i);
        }
    } else {
        assert forall|i: int| 0 <= i < selected_alloy_keys(requested, available).len()
            implies available.contains(#[trigger] selected_alloy_keys(requested, available)[i]) by {
            assert(available[i] == selected_alloy_keys(requested, available)[i]);
        }
    }
}

/// An empty request covers exactly the available alloys; a non-empty one
/// covers an alloy exactly when it is both requested and available.
pub proof fn lemma_alloy_selection_membership(requested: Seq<Seq<char>>, available: Seq<Seq<char>>)
    ensures
        requested.len() == 0 ==> selected_alloy_keys(requested, available) == available,
        requested.len() > 0 ==> forall|key: Seq<char>| #[trigger] selected_alloy_keys(requested, available).contains(key)
            <==> (requested.contains(key) && available.contains(key)),
{
    broadcast use vstd::seq_lib::group_filter_ensures;
    if requested.len() > 0 {
        let is_available = |key: Seq<char>| available.contains(key);
        assert forall|key: Seq<char>| #[trigger] selected_alloy_keys(requested, available).contains(key)
            <==> (requested.contains(key) && available.contains(key)) by {
            if selected_alloy_keys(requested, available).contains(key) {
                requested.lemma_filter_contains_rev(is_available, key);
            }
            if requested.contains(key) && available.contains(key) {
                let k = choose|k: int| 0 <= k < requested.len() && requested[k] == key;
                requested.lemma_filter_contains(is_available, k);
            }
        }
    }
}

/// Asking again for the alloys a comparison covered covers the same alloys,
/// provided it covered any.
pub proof fn lemma_alloy_selection_idempotent(requested: Seq<Seq<char>>, available: Seq<Seq<char>>)
    requires
        selected_alloy_keys(requested, available).len() > 0,
    ensures
        selected_alloy_keys(selected_alloy_keys(requested, available), available)
            == selected_alloy_keys(requested, available),
{
    let chosen = selected_alloy_keys(requested, available);
    let is_available = |key: Seq<char>| available.contains(key);
    lemma_selected_alloys_available(requested, available);
    crate::casting::lemma_filter_all(chosen, is_available);
}

/// A request that names only unavailable alloys covers none.
pub proof fn lemma_unknown_alloys_select_nothing(requested: Seq<Seq<char>>, available: Seq<Seq<char>>)
    requires
        requested.len() > 0,
        forall|i: int| 0 <= i < requested.len() ==> !available.contains(#[trigger] requested[i]),
    ensures
        selected_alloy_keys(requested, available).len() == 0,
{
    broadcast use vstd::seq_lib::group_filter_ensures;
    let is_available = |key: Seq<char>| available.contains(key);
    if requested.filter(is_available).len() > 0 {
        let key = requested.filter(is_available)[0];
        requested.lemma_filter_pred(is_available, 0);
        requested.lemma_filter_contains_rev(is_available, key);
        assert(requested.filter(is_available).contains(key));
    }
}

/// Which bronze a bell gets follows from the words in its kind: a chime bell
/// (编钟) gets the pre-Qin tin bronze; otherwise a court bell (朝钟) or the
/// Yongle bell (永乐) gets the Ming low-tin bronze; otherwise a Buddhist bell
/// (佛钟) gets the Qing bronze; any other bell the default tin bronze.
pub proof fn lemma_material_follows_bell_words(bell_type: Seq<char>)
    ensures
        has_substring(bell_type, "编钟"@) ==> material_key_for(bell_type) == "bronze_qing_qin"@,
        !has_substring(bell_type, "编钟"@) && has_substring(bell_type, "朝钟"@)
            ==> material_key_for(bell_type) == "bronze_yong_le"@,
        !has_substring(bell_type, "编钟"@) && has_substring(bell_type, "永乐"@)
            ==> material_key_for(bell_type) == "bronze_yong_le"@,
        !has_substring(bell_type, "编钟"@) && !has_substring(bell_type, "朝钟"@)
            && !has_substring(bell_type, "永乐"@) && has_substring(bell_type, "佛钟"@)
            ==> material_key_for(bell_type) == "bronze_fo_zhong"@,
        !has_substring(bell_type, "编钟"@) && !has_substring(bell_type, "朝钟"@)
            && !has_substring(bell_type, "永乐"@) && !has_substring(bell_type, "佛钟"@)
            ==> material_key_for(bell_type) == "bronze_qing_qin"@,
{
}

/// A word occurring in a text occurs in any text that surrounds it.
pub proof fn lemma_substring_in_context(s: Seq<char>, word: Seq<char>, before: Seq<char>, after: Seq<char>)
    requires
        has_substring(s, word),
    ensures
        has_substring(before + s + after, word),
{
    let i = choose|i: int| 0 <= i <= s.len() - word.len() && #[trigger] s.subrange(i, i + word.len()) == word;
    let t = before + s + after;
    let j = before.len() + i;
    assert(t.subrange(j, j + word.len()) =~= s.subrange(i, i + word.len()));
}

/// A bell whose kind names a court bell (朝钟), with any words around it that
/// do not name a chime bell, gets the Ming low-tin bronze.
pub proof fn lemma_court_bell_in_context(before: Seq<char>, after: Seq<char>)
    requires
        !has_substring(before + "朝钟"@ + after, "编钟"@),
    ensures
        material_key_for(before + "朝钟"@ + after) == "bronze_yong_le"@,
{
    assert(has_substring("朝钟"@, "朝钟"@)) by {
        let w = "朝钟"@;
        assert(w.subrange(0, 0int + w.len()) =~= w);
    }
    lemma_substring_in_context("朝钟"@, "朝钟"@, before, after);
}

/// Every kind of bell is given one of the three catalogued bronzes, and a
/// chime bell always the pre-Qin tin bronze.
pub proof fn lemma_material_key_known(bell_type: Seq<char>)
    ensures
        material_key_for(bell_type) == "bronze_qing_qin"@
            || material_key_for(bell_type) == "bronze_yong_le"@
            || material_key_for(bell_type) == "bronze_fo_zhong"@,
        has_substring(bell_type, "编钟"@) ==> material_key_for(bell_type) == "bronze_qing_qin"@,
{
}

/// Whether `key` is one of the listed strings.
fn listed(list: &Vec<String>, key: &str) -> (found: bool)
    ensures
        found == string_views(list@).contains(key@),
{
    let mut index: usize = 0;
    while index < list.len()
        invariant
            index <= list.len(),
            forall|j: int| 0 <= j < index ==> list@[j]@ != key@,
        decreases list.len() - index,
    {
        if str_equals(list[index].as_str(), key) {
            assert(string_views(list@)[index as int] == key@);
            return true;
        }
        index = index + 1;
    }
    assert forall|j: int| 0 <= j < string_views(list@).len() implies string_views(list@)[j] != key@ by {
        assert(list@[j]@ != key@);
    }
    false
}

/// The alloy keys a comparison covers, given the requested keys and the keys
/// of the available materials.
pub fn select_alloy_keys(requested: &Vec<String>, available: &Vec<String>) -> (keys: Vec<String>)
    ensures
        string_views(keys@) == selected_alloy_keys(string_views(requested@), string_views(available@)),
{
    let ghost avail = string_views(available@);
    let ghost req = string_views(requested@);
    let ghost is_available = |key: Seq<char>| avail.contains(key);
    if requested.len() == 0 {
        return available.clone();
    }
    let mut keys: Vec<String> = Vec::new();
    let mut index: usize = 0;
    while index < requested.len()
        invariant
            index <= requested.len(),
            avail == string_views(available@),
            req == string_views(requested@),
            is_available == (|key: Seq<char>| avail.contains(key)),
            string_views(keys@) == req.take(index as int).filter(is_available),
        decreases requested.len() - index,
    {
        let key = &requested[index];
        assert(req.take(index + 1) =~= req.take(index as int).push(key@));
        proof {
            req.take(index as int).lemma_filter_push(key@, is_available);
        }
        if listed(available, key.as_str()) {
            let ghost before = keys@;
            keys.push(key.clone());
            assert(string_views(keys@) =~= string_views(before).push(key@));
        }
        index = index + 1;
    }
    assert(req.take(requested.len() as int) =~= req);
    keys
}

} // verus!

//! Ready-made card and set identities for exercising the engine: a
//! well-known card with two printings, a double-faced-looking foil
//! listing, and a second card with a single printing.
use vstd::prelude::*;

use crate::cardname::clean_name_spec;
use crate::cardname::is_basic_land_spec;
use crate::cardname::lemma_clean_plain;
use crate::cardname::normalize_name_spec;
use crate::cardname::valid_card_name;
use crate::cardname::CardName;
use crate::setname::clean_set_spec;
use crate::setname::set_raw_spec;
use crate::setname::valid_set_name;
use crate::setname::SetName;
use crate::text::has_char;
use crate::text::lemma_bfp_prefix;
use crate::text::lemma_pattern_absent_by_first_char;
use crate::text::lemma_remove_all_absent;
use crate::text::lower_seq;
use crate::text::strip_parens_spec;
use crate::text::trim_end_spec;

verus! {

proof fn lemma_plain_card_name(raw: Seq<char>, cleaned: Seq<char>)
    requires
        !has_char(raw, '('),
        lower_seq(raw) == cleaned,
        forall|i: int|
            0 <= i < cleaned.len() ==> crate::text::is_name_char(#[trigger] cleaned[i])
                && !crate::text::is_upper_char(cleaned[i]),
        crate::text::space_collapsed(cleaned),
        cleaned.len() > 0,
        cleaned.last() != ' ',
        !is_basic_land_spec(cleaned),
    ensures
        valid_card_name(raw),
        normalize_name_spec(raw) == cleaned,
{
    assert(strip_parens_spec(raw) == raw);
    lemma_clean_plain(cleaned);
    assert(clean_name_spec(raw) == clean_name_spec(cleaned)) by {
        assert(lower_seq(cleaned) =~= cleaned) by {
            assert(forall|i: int|
                0 <= i < cleaned.len() ==> crate::text::lower_char(#[trigger] cleaned[i])
                    == cleaned[i]);
        }
        assert(lower_seq(raw) == lower_seq(cleaned));
    }
}

proof fn lemma_plain_set_name(raw: Seq<char>, cleaned: Seq<char>)
    requires
        forall|i: int| 0 <= i < raw.len() ==> #[trigger] raw[i] != '\'' && raw[i] != '"',
        forall|i: int|
            0 <= i < raw.len() ==> crate::text::is_alnum_ws_char(#[trigger] raw[i]),
        raw.len() > 0,
        !crate::text::is_space_char(raw[0]),
        !crate::text::is_space_char(raw.last()),
        lower_seq(raw) == cleaned,
    ensures
        valid_set_name(raw),
        set_raw_spec(raw) == raw,
        clean_set_spec(raw) == cleaned,
{
    reveal_strlit("'");
    reveal_strlit("\"");
    lemma_pattern_absent_by_first_char(raw, "'"@);
    lemma_remove_all_absent(raw, "'"@);
    lemma_pattern_absent_by_first_char(raw, "\""@);
    lemma_remove_all_absent(raw, "\""@);
    assert(set_raw_spec(raw) == raw);
    crate::text::lemma_filter_fixed(raw, |c: char| crate::text::is_alnum_ws_char(c));
    assert(crate::text::trim_start_spec(raw) == raw);
    assert(trim_end_spec(raw) == raw);
    assert(cleaned.len() == raw.len());
}

/// "Reaper King", normalized "reaper king".
pub fn reaper_king_card_name() -> (r: CardName)
    ensures
        r.wf(),
        r.raw@ == "Reaper King"@,
        r.cleaned@ == "reaper king"@,
{
    proof {
        reveal_strlit("Reaper King");
        reveal_strlit("reaper king");
        assert(lower_seq("Reaper King"@) =~= "reaper king"@);
        lemma_not_basic("reaper king"@);
        lemma_plain_card_name("Reaper King"@, "reaper king"@);
    }
    match CardName::new(String::from_str("Reaper King")) {
        Ok(c) => c,
        Err(_) => unreached(),
    }
}

/// "Lifecraft Cavalry", normalized "lifecraft cavalry".
pub fn lifecraft_c_name() -> (r: CardName)
    ensures
        r.wf(),
        r.raw@ == "Lifecraft Cavalry"@,
        r.cleaned@ == "lifecraft cavalry"@,
{
    proof {
        reveal_strlit("Lifecraft Cavalry");
        reveal_strlit("lifecraft cavalry");
        assert(lower_seq("Lifecraft Cavalry"@) =~= "lifecraft cavalry"@);
        lemma_not_basic("lifecraft cavalry"@);
        lemma_plain_card_name("Lifecraft Cavalry"@, "lifecraft cavalry"@);
    }
    match CardName::new(String::from_str("Lifecraft Cavalry")) {
        Ok(c) => c,
        Err(_) => unreached(),
    }
}

/// "Sunken Ruins (Foil)": the annotation is dropped, normalized
/// "sunken ruins".
pub fn cardname_sunken_ruins() -> (r: CardName)
    ensures
        r.wf(),
        r.raw@ == "Sunken Ruins (Foil)"@,
        r.almost_raw@ == "Sunken Ruins"@,
        r.cleaned@ == "sunken ruins"@,
{
    proof {
        reveal_strlit("Sunken Ruins (Foil)");
        reveal_strlit("Sunken Ruins");
        reveal_strlit("sunken ruins");
        let s = "Sunken Ruins (Foil)"@;
        lemma_bfp_prefix(s, 13);
        assert(s.skip(13)[0] == '(');
        assert(crate::text::before_first_paren(s.skip(13)) =~= Seq::<char>::empty());
        assert(crate::text::before_first_paren(s) =~= s.take(13));
        assert(has_char(s, '(')) by {
            assert(s[13] == '(');
        }
        let u = s.take(13);
        assert(crate::text::trim_start_spec(u) == u);
        assert(trim_end_spec(u) == trim_end_spec(u.drop_last()));
        assert(u.drop_last() =~= "Sunken Ruins"@);
        assert(trim_end_spec("Sunken Ruins"@) == "Sunken Ruins"@);
        assert(strip_parens_spec(s) == "Sunken Ruins"@);
        assert(lower_seq("Sunken Ruins"@) =~= "sunken ruins"@);
        lemma_clean_plain("sunken ruins"@);
        assert(clean_name_spec("Sunken Ruins"@) == "sunken ruins"@) by {
            assert(lower_seq("sunken ruins"@) =~= "sunken ruins"@) by {
                assert(forall|i: int|
                    0 <= i < "sunken ruins"@.len() ==> crate::text::lower_char(
                        #[trigger] "sunken ruins"@[i],
                    ) == "sunken ruins"@[i]);
            }
        }
        lemma_not_basic("sunken ruins"@);
        assert(valid_card_name(s));
    }
    match CardName::new(String::from_str("Sunken Ruins (Foil)")) {
        Ok(c) => c,
        Err(_) => unreached(),
    }
}

proof fn lemma_not_basic(s: Seq<char>)
    requires
        s.len() == 11 || s.len() == 12 || s.len() == 17,
    ensures
        !is_basic_land_spec(s),
{
    reveal_strlit("mountain");
    reveal_strlit("island");
    reveal_strlit("plains");
    reveal_strlit("swamp");
    reveal_strlit("forest");
}

/// "Shadowmoor".
pub fn reaper_king_set_name() -> (r: SetName)
    ensures
        r.wf(),
        r.raw@ == "Shadowmoor"@,
        r.cleaned@ == "shadowmoor"@,
{
    proof {
        reveal_strlit("Shadowmoor");
        reveal_strlit("shadowmoor");
        assert(lower_seq("Shadowmoor"@) =~= "shadowmoor"@);
        lemma_plain_set_name("Shadowmoor"@, "shadowmoor"@);
    }
    match SetName::new(String::from_str("Shadowmoor")) {
        Ok(s) => s,
        Err(_) => unreached(),
    }
}

/// "Mystery booster retail edition foils".
pub fn reaper_king_set_name_2() -> (r: SetName)
    ensures
        r.wf(),
        r.raw@ == "Mystery booster retail edition foils"@,
        r.cleaned@ == "mystery booster retail edition foils"@,
{
    proof {
        reveal_strlit("Mystery booster retail edition foils");
        reveal_strlit("mystery booster retail edition foils");
        assert(lower_seq("Mystery booster retail edition foils"@)
            =~= "mystery booster retail edition foils"@);
        lemma_plain_set_name(
            "Mystery booster retail edition foils"@,
            "mystery booster retail edition foils"@,
        );
    }
    match SetName::new(String::from_str("Mystery booster retail edition foils")) {
        Ok(s) => s,
        Err(_) => unreached(),
    }
}

/// "Aether Revolt".
pub fn lifecraft_c_set_name() -> (r: SetName)
    ensures
        r.wf(),
        r.raw@ == "Aether Revolt"@,
        r.cleaned@ == "aether revolt"@,
{
    proof {
        reveal_strlit("Aether Revolt");
        reveal_strlit("aether revolt");
        assert(lower_seq("Aether Revolt"@) =~= "aether revolt"@);
        lemma_plain_set_name("Aether Revolt"@, "aether revolt"@);
    }
    match SetName::new(String::from_str("Aether Revolt")) {
        Ok(s) => s,
        Err(_) => unreached(),
    }
}

/// "Double Masters".
pub fn setname_sunken_ruins() -> (r: SetName)
    ensures
        r.wf(),
        r.raw@ == "Double Masters"@,
        r.cleaned@ == "double masters"@,
{
    proof {
        reveal_strlit("Double Masters");
        reveal_strlit("double masters");
        assert(lower_seq("Double Masters"@) =~= "double masters"@);
        lemma_plain_set_name("Double Masters"@, "double masters"@);
    }
    match SetName::new(String::from_str("Double Masters")) {
        Ok(s) => s,
        Err(_) => unreached(),
    }
}

} // verus!

//! The look of a dilemma's scenery: which visual profile it uses, and how many smoke plumes,
//! body parts and blood stains its intensity asks for.
use vstd::prelude::*;

use crate::text::{chars_eq, chars_of, string_of};

verus! {

/// The profile used when a dilemma names none, or one that does not exist.
pub const DEFAULT_VISUAL_PROFILE: &'static str = "desert_default";

/// The profile a dilemma asks for, and how intense its scenery is.
#[derive(Debug, Clone, PartialEq, Eq)]
pub struct DilemmaVisualSelection {
    pub profile: String,
    pub intensity: u8,
}

impl Default for DilemmaVisualSelection {
    fn default() -> (r: DilemmaVisualSelection)
        ensures
            r.profile@ == DEFAULT_VISUAL_PROFILE@,
            r.intensity == 0,
    {
        DilemmaVisualSelection { profile: string_of(DEFAULT_VISUAL_PROFILE), intensity: 0 }
    }
}

/// The first position of `id` among `ids`.
pub open spec fn first_position(ids: Seq<Seq<char>>, id: Seq<char>) -> Option<int> {
    if exists|i: int| 0 <= i < ids.len() && ids[i] == id {
        Some(choose|i: int| 0 <= i < ids.len() && ids[i] == id && forall|j: int| 0 <= j < i ==> ids[j] != id)
    } else {
        None
    }
}

/// The character sequences of a list of strings.
pub open spec fn string_views(v: Seq<String>) -> Seq<Seq<char>> {
    v.map_values(|s: String| s@)
}

fn position_of(ids: &Vec<String>, id: &Vec<char>) -> (r: Option<usize>)
    ensures
        match r {
            Some(i) => first_position(string_views(ids@), id@) == Some(i as int),
            None => first_position(string_views(ids@), id@) is None,
        },
{
    let ghost views = string_views(ids@);
    let mut i: usize = 0;
    while i < ids.len()
        invariant
            i <= ids@.len(),
            views == string_views(ids@),
            views.len() == ids@.len(),
            forall|j: int| 0 <= j < i ==> views[j] != id@,
        decreases ids.len() - i,
    {
        let candidate = chars_of(ids[i].as_str());
        assert(views[i as int] == ids@[i as int]@);
        if chars_eq(&candidate, id) {
            proof {
                let f = choose|k: int| 0 <= k < views.len() && views[k] == id@ && forall|j: int| 0 <= j < k ==> views[j] != id@;
                assert(0 <= i < views.len() && views[i as int] == id@);
                assert(!(f < i)) by {
                    if f < i {
                        assert(views[f] != id@);
                    }
                }
                assert(!((i as int) < f)) by {
                    if (i as int) < f {
                        assert(views[i as int] != id@);
                    }
                }
            }
            return Some(i);
        }
        i = i + 1;
    }
    None
}

/// The profile to use among profiles with ids `profile_ids`: the one asked for, else the
/// default one, else none.
pub fn choose_profile(profile_ids: &Vec<String>, wanted: &str) -> (r: Option<usize>)
    ensures
        r == match first_position(string_views(profile_ids@), wanted@) {
            Some(i) => Some(i as usize),
            None => match first_position(string_views(profile_ids@), DEFAULT_VISUAL_PROFILE@) {
                Some(i) => Some(i as usize),
                None => None,
            },
        },
{
    let wanted_chars = chars_of(wanted);
    match position_of(profile_ids, &wanted_chars) {
        Some(i) => Some(i),
        None => {
            let default_chars = chars_of(DEFAULT_VISUAL_PROFILE);
            position_of(profile_ids, &default_chars)
        },
    }
}

/// A base count grown by `per_intensity` for each step of intensity, stopping at the largest
/// count.
pub open spec fn scaled(base: usize, per_intensity: usize, intensity: u8) -> usize {
    if base + per_intensity * intensity > usize::MAX { usize::MAX } else { (base + per_intensity * intensity) as usize }
}

pub fn scaled_count(base: usize, per_intensity: usize, intensity: u8) -> (r: usize)
    requires
        per_intensity * intensity <= usize::MAX,
    ensures
        r == scaled(base, per_intensity, intensity),
{
    let grown = per_intensity * (intensity as usize);
    base.saturating_add(grown)
}

/// How many smoke plumes drift by: none when the profile has no smoke or the count is 0.
pub fn smoke_plume_count(enabled: bool, base: usize, per_intensity: usize, intensity: u8) -> (r: Option<usize>)
    requires
        per_intensity * intensity <= usize::MAX,
    ensures
        r == (if enabled && scaled(base, per_intensity, intensity) > 0 {
            Some(scaled(base, per_intensity, intensity))
        } else {
            None
        }),
{
    if !enabled {
        return None;
    }
    let count = scaled_count(base, per_intensity, intensity);
    if count == 0 { None } else { Some(count) }
}

/// How many body parts and blood stains lie about: none when the profile has no viscera or
/// both counts are 0.
pub fn viscera_counts(
    enabled: bool,
    body_parts_base: usize,
    body_parts_per_intensity: usize,
    blood_base: usize,
    blood_per_intensity: usize,
    intensity: u8,
) -> (r: Option<(usize, usize)>)
    requires
        body_parts_per_intensity * intensity <= usize::MAX,
        blood_per_intensity * intensity <= usize::MAX,
    ensures
        r == ({
            let body = scaled(body_parts_base, body_parts_per_intensity, intensity);
            let blood = scaled(blood_base, blood_per_intensity, intensity);
            if enabled && (body > 0 || blood > 0) { Some((body, blood)) } else { None }
        }),
{
    if !enabled {
        return None;
    }
    let body = scaled_count(body_parts_base, body_parts_per_intensity, intensity);
    let blood = scaled_count(blood_base, blood_per_intensity, intensity);
    if body == 0 && blood == 0 { None } else { Some((body, blood)) }
}

} // verus!

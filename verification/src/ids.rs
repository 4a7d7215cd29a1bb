//! Typed identifiers of the scenes that the campaign graph names, and their parsers.
use vstd::prelude::*;

use crate::schema::{SceneRef, SceneRefView};
use crate::text::{push_str, string_of, chars_eq_str, chars_of, lemma_split_on_nonempty, parse_u8_chars, parse_u8_spec, split_chars, split_on, views_of};

verus! {

#[derive(Debug, Clone, Copy, PartialEq, Eq, Hash, Structural)]
pub enum PathOutcomeId {
    Pass,
    Fail,
}

/// The outcome that `raw` names: `pass` or `fail`.
pub open spec fn outcome_from(raw: Seq<char>) -> Option<PathOutcomeId> {
    if raw == "pass"@ {
        Some(PathOutcomeId::Pass)
    } else if raw == "fail"@ {
        Some(PathOutcomeId::Fail)
    } else {
        None
    }
}

impl PathOutcomeId {
    pub fn parse(raw: &str) -> (r: Option<PathOutcomeId>)
        ensures
            r == outcome_from(raw@),
    {
        let chars = chars_of(raw);
        Self::parse_chars(&chars)
    }

    fn parse_chars(raw: &Vec<char>) -> (r: Option<PathOutcomeId>)
        ensures
            r == outcome_from(raw@),
    {
        if chars_eq_str(raw, "pass") {
            Some(PathOutcomeId::Pass)
        } else if chars_eq_str(raw, "fail") {
            Some(PathOutcomeId::Fail)
        } else {
            None
        }
    }
}

#[derive(Debug, Clone, Copy, PartialEq, Eq, Hash, Structural)]
pub enum DialogueSceneId {
    Lab1aFail,
    Lab1aPassIndecisive,
    Lab1aFailVeryIndecisive,
    Lab1aPass,
    Lab1aPassSlow,
    Lab1bIntro,
    Lab2aFailIndecisive,
    Lab2aFail,
    Lab2aPassSlowAgain,
    Lab2aPassSlow,
    Lab2aPass,
    Lab2bIntro,
    Lab3aFailIndecisive,
    Lab3aFailInaction,
    Lab3aPassUtilitarian,
    PathDeontologicalFailIndecisive,
    Lab3bIntro,
    Lab4Outro,
    PathPsychopathTryAgainFail,
    PathPsychopathTryAgainPass,
    PathPsychopathOne,
    PathPsychopathTwo,
    PathPsychopathBabyOne,
    PathPsychopathBaby,
    PathPsychopathNuns,
    PathPsychopathFastRepentant,
    PathPsychopathFast,
    PathPsychopathSlow,
    PathPsychopathCityMaxDeath,
    PathPsychopathCityRepentant,
    PathPsychopathCity,
    PathPsychopathPainMaxPain,
    PathPsychopathPainRepentant,
    PathPsychopathPain,
    PathInaction { stage: u8, outcome: PathOutcomeId },
    PathDeontological { stage: u8, outcome: PathOutcomeId },
    PathUtilitarian { stage: u8, outcome: PathOutcomeId },
}

/// The dialogue that a fixed identifier names.
pub open spec fn static_dialogue_id(id: Seq<char>) -> Option<DialogueSceneId> {
    if id == "lab_1.a.fail"@ {
        Some(DialogueSceneId::Lab1aFail)
    } else if id == "lab_1.a.pass_indecisive"@ {
        Some(DialogueSceneId::Lab1aPassIndecisive)
    } else if id == "lab_1.a.fail_very_indecisive"@ {
        Some(DialogueSceneId::Lab1aFailVeryIndecisive)
    } else if id == "lab_1.a.pass"@ {
        Some(DialogueSceneId::Lab1aPass)
    } else if id == "lab_1.a.pass_slow"@ {
        Some(DialogueSceneId::Lab1aPassSlow)
    } else if id == "lab_1.b.intro"@ {
        Some(DialogueSceneId::Lab1bIntro)
    } else if id == "lab_2.a.fail_indecisive"@ {
        Some(DialogueSceneId::Lab2aFailIndecisive)
    } else if id == "lab_2.a.fail"@ {
        Some(DialogueSceneId::Lab2aFail)
    } else if id == "lab_2.a.pass_slow_again"@ {
        Some(DialogueSceneId::Lab2aPassSlowAgain)
    } else if id == "lab_2.a.pass_slow"@ {
        Some(DialogueSceneId::Lab2aPassSlow)
    } else if id == "lab_2.a.pass"@ {
        Some(DialogueSceneId::Lab2aPass)
    } else if id == "lab_2.b.intro"@ {
        Some(DialogueSceneId::Lab2bIntro)
    } else if id == "lab_3.a.fail_indecisive"@ {
        Some(DialogueSceneId::Lab3aFailIndecisive)
    } else if id == "lab_3.a.fail_inaction"@ {
        Some(DialogueSceneId::Lab3aFailInaction)
    } else if id == "lab_3.a.pass_utilitarian"@ {
        Some(DialogueSceneId::Lab3aPassUtilitarian)
    } else if id == "path_deontological.fail_indecisive"@ {
        Some(DialogueSceneId::PathDeontologicalFailIndecisive)
    } else if id == "lab_3.b.intro"@ {
        Some(DialogueSceneId::Lab3bIntro)
    } else if id == "lab_4.outro"@ {
        Some(DialogueSceneId::Lab4Outro)
    } else if id == "path_psychopath.0.fail"@ {
        Some(DialogueSceneId::PathPsychopathTryAgainFail)
    } else if id == "path_psychopath.0.pass"@ {
        Some(DialogueSceneId::PathPsychopathTryAgainPass)
    } else if id == "path_psychopath.1.one"@ {
        Some(DialogueSceneId::PathPsychopathOne)
    } else if id == "path_psychopath.1.two"@ {
        Some(DialogueSceneId::PathPsychopathTwo)
    } else if id == "path_psychopath.2.baby_one"@ {
        Some(DialogueSceneId::PathPsychopathBabyOne)
    } else if id == "path_psychopath.2.baby"@ {
        Some(DialogueSceneId::PathPsychopathBaby)
    } else if id == "path_psychopath.2.nuns"@ {
        Some(DialogueSceneId::PathPsychopathNuns)
    } else if id == "path_psychopath.3.fast_repentant"@ {
        Some(DialogueSceneId::PathPsychopathFastRepentant)
    } else if id == "path_psychopath.3.fast"@ {
        Some(DialogueSceneId::PathPsychopathFast)
    } else if id == "path_psychopath.3.slow"@ {
        Some(DialogueSceneId::PathPsychopathSlow)
    } else if id == "path_psychopath.4.city_max_death"@ {
        Some(DialogueSceneId::PathPsychopathCityMaxDeath)
    } else if id == "path_psychopath.4.city_repentant"@ {
        Some(DialogueSceneId::PathPsychopathCityRepentant)
    } else if id == "path_psychopath.4.city_redeption"@ {
        Some(DialogueSceneId::PathPsychopathCityRepentant)
    } else if id == "path_psychopath.4.city"@ {
        Some(DialogueSceneId::PathPsychopathCity)
    } else if id == "path_psychopath.4.pain_max_pain"@ {
        Some(DialogueSceneId::PathPsychopathPainMaxPain)
    } else if id == "path_psychopath.4.pain_repentant"@ {
        Some(DialogueSceneId::PathPsychopathPainRepentant)
    } else if id == "path_psychopath.4.pain_redeption"@ {
        Some(DialogueSceneId::PathPsychopathPainRepentant)
    } else if id == "path_psychopath.4.pain"@ {
        Some(DialogueSceneId::PathPsychopathPain)
    } else {
        None
    }
}

/// The identifier that the campaign graph gives each fixed dialogue; the path dialogues,
/// named by stage and outcome, have none here.
pub open spec fn fixed_dialogue_identifier(d: DialogueSceneId) -> Option<Seq<char>> {
    match d {
        DialogueSceneId::Lab1aFail => Some("lab_1.a.fail"@),
        DialogueSceneId::Lab1aPassIndecisive => Some("lab_1.a.pass_indecisive"@),
        DialogueSceneId::Lab1aFailVeryIndecisive => Some("lab_1.a.fail_very_indecisive"@),
        DialogueSceneId::Lab1aPass => Some("lab_1.a.pass"@),
        DialogueSceneId::Lab1aPassSlow => Some("lab_1.a.pass_slow"@),
        DialogueSceneId::Lab1bIntro => Some("lab_1.b.intro"@),
        DialogueSceneId::Lab2aFailIndecisive => Some("lab_2.a.fail_indecisive"@),
        DialogueSceneId::Lab2aFail => Some("lab_2.a.fail"@),
        DialogueSceneId::Lab2aPassSlowAgain => Some("lab_2.a.pass_slow_again"@),
        DialogueSceneId::Lab2aPassSlow => Some("lab_2.a.pass_slow"@),
        DialogueSceneId::Lab2aPass => Some("lab_2.a.pass"@),
        DialogueSceneId::Lab2bIntro => Some("lab_2.b.intro"@),
        DialogueSceneId::Lab3aFailIndecisive => Some("lab_3.a.fail_indecisive"@),
        DialogueSceneId::Lab3aFailInaction => Some("lab_3.a.fail_inaction"@),
        DialogueSceneId::Lab3aPassUtilitarian => Some("lab_3.a.pass_utilitarian"@),
        DialogueSceneId::PathDeontologicalFailIndecisive => Some("path_deontological.fail_indecisive"@),
        DialogueSceneId::Lab3bIntro => Some("lab_3.b.intro"@),
        DialogueSceneId::Lab4Outro => Some("lab_4.outro"@),
        DialogueSceneId::PathPsychopathTryAgainFail => Some("path_psychopath.0.fail"@),
        DialogueSceneId::PathPsychopathTryAgainPass => Some("path_psychopath.0.pass"@),
        DialogueSceneId::PathPsychopathOne => Some("path_psychopath.1.one"@),
        DialogueSceneId::PathPsychopathTwo => Some("path_psychopath.1.two"@),
        DialogueSceneId::PathPsychopathBabyOne => Some("path_psychopath.2.baby_one"@),
        DialogueSceneId::PathPsychopathBaby => Some("path_psychopath.2.baby"@),
        DialogueSceneId::PathPsychopathNuns => Some("path_psychopath.2.nuns"@),
        DialogueSceneId::PathPsychopathFastRepentant => Some("path_psychopath.3.fast_repentant"@),
        DialogueSceneId::PathPsychopathFast => Some("path_psychopath.3.fast"@),
        DialogueSceneId::PathPsychopathSlow => Some("path_psychopath.3.slow"@),
        DialogueSceneId::PathPsychopathCityMaxDeath => Some("path_psychopath.4.city_max_death"@),
        DialogueSceneId::PathPsychopathCityRepentant => Some("path_psychopath.4.city_repentant"@),
        DialogueSceneId::PathPsychopathCity => Some("path_psychopath.4.city"@),
        DialogueSceneId::PathPsychopathPainMaxPain => Some("path_psychopath.4.pain_max_pain"@),
        DialogueSceneId::PathPsychopathPainRepentant => Some("path_psychopath.4.pain_repentant"@),
        DialogueSceneId::PathPsychopathPain => Some("path_psychopath.4.pain"@),
        _ => None,
    }
}

/// Whatever names a fixed dialogue is that dialogue's own identifier, or one of the two older
/// spellings the graph may still use for the repentant city and pain dialogues: no identifier
/// names another dialogue than its own.
pub proof fn lemma_fixed_dialogue_names_its_own(name: Seq<char>)
    requires
        static_dialogue_id(name) is Some,
    ensures
        fixed_dialogue_identifier(static_dialogue_id(name)->0) == Some(name)
            || (name == "path_psychopath.4.city_redeption"@
                && static_dialogue_id(name) == Some(DialogueSceneId::PathPsychopathCityRepentant))
            || (name == "path_psychopath.4.pain_redeption"@
                && static_dialogue_id(name) == Some(DialogueSceneId::PathPsychopathPainRepentant)),
{
}

/// Each fixed dialogue's identifier reads back as that dialogue.
pub proof fn lemma_fixed_dialogue_identifier_round_trips(d: DialogueSceneId)
    requires
        fixed_dialogue_identifier(d) is Some,
    ensures
        static_dialogue_id(fixed_dialogue_identifier(d)->0) == Some(d),
{
    // Identifiers of different lengths differ; those of equal length differ at the
    // character given below.
    reveal_strlit("lab_1.a.fail");
    assert("lab_1.a.fail"@.len() == 12);
    reveal_strlit("lab_1.a.pass_indecisive");
    assert("lab_1.a.pass_indecisive"@.len() == 23);
    reveal_strlit("lab_1.a.fail_very_indecisive");
    assert("lab_1.a.fail_very_indecisive"@.len() == 28);
    reveal_strlit("lab_1.a.pass");
    assert("lab_1.a.pass"@.len() == 12);
    reveal_strlit("lab_1.a.pass_slow");
    assert("lab_1.a.pass_slow"@.len() == 17);
    reveal_strlit("lab_1.b.intro");
    assert("lab_1.b.intro"@.len() == 13);
    reveal_strlit("lab_2.a.fail_indecisive");
    assert("lab_2.a.fail_indecisive"@.len() == 23);
    reveal_strlit("lab_2.a.fail");
    assert("lab_2.a.fail"@.len() == 12);
    reveal_strlit("lab_2.a.pass_slow_again");
    assert("lab_2.a.pass_slow_again"@.len() == 23);
    reveal_strlit("lab_2.a.pass_slow");
    assert("lab_2.a.pass_slow"@.len() == 17);
    reveal_strlit("lab_2.a.pass");
    assert("lab_2.a.pass"@.len() == 12);
    reveal_strlit("lab_2.b.intro");
    assert("lab_2.b.intro"@.len() == 13);
    reveal_strlit("lab_3.a.fail_indecisive");
    assert("lab_3.a.fail_indecisive"@.len() == 23);
    reveal_strlit("lab_3.a.fail_inaction");
    assert("lab_3.a.fail_inaction"@.len() == 21);
    reveal_strlit("lab_3.a.pass_utilitarian");
    assert("lab_3.a.pass_utilitarian"@.len() == 24);
    reveal_strlit("path_deontological.fail_indecisive");
    assert("path_deontological.fail_indecisive"@.len() == 34);
    reveal_strlit("lab_3.b.intro");
    assert("lab_3.b.intro"@.len() == 13);
    reveal_strlit("lab_4.outro");
    assert("lab_4.outro"@.len() == 11);
    reveal_strlit("path_psychopath.0.fail");
    assert("path_psychopath.0.fail"@.len() == 22);
    reveal_strlit("path_psychopath.0.pass");
    assert("path_psychopath.0.pass"@.len() == 22);
    reveal_strlit("path_psychopath.1.one");
    assert("path_psychopath.1.one"@.len() == 21);
    reveal_strlit("path_psychopath.1.two");
    assert("path_psychopath.1.two"@.len() == 21);
    reveal_strlit("path_psychopath.2.baby_one");
    assert("path_psychopath.2.baby_one"@.len() == 26);
    reveal_strlit("path_psychopath.2.baby");
    assert("path_psychopath.2.baby"@.len() == 22);
    reveal_strlit("path_psychopath.2.nuns");
    assert("path_psychopath.2.nuns"@.len() == 22);
    reveal_strlit("path_psychopath.3.fast_repentant");
    assert("path_psychopath.3.fast_repentant"@.len() == 32);
    reveal_strlit("path_psychopath.3.fast");
    assert("path_psychopath.3.fast"@.len() == 22);
    reveal_strlit("path_psychopath.3.slow");
    assert("path_psychopath.3.slow"@.len() == 22);
    reveal_strlit("path_psychopath.4.city_max_death");
    assert("path_psychopath.4.city_max_death"@.len() == 32);
    reveal_strlit("path_psychopath.4.city_repentant");
    assert("path_psychopath.4.city_repentant"@.len() == 32);
    reveal_strlit("path_psychopath.4.city_redeption");
    assert("path_psychopath.4.city_redeption"@.len() == 32);
    reveal_strlit("path_psychopath.4.city");
    assert("path_psychopath.4.city"@.len() == 22);
    reveal_strlit("path_psychopath.4.pain_max_pain");
    assert("path_psychopath.4.pain_max_pain"@.len() == 31);
    reveal_strlit("path_psychopath.4.pain_repentant");
    assert("path_psychopath.4.pain_repentant"@.len() == 32);
    reveal_strlit("path_psychopath.4.pain_redeption");
    assert("path_psychopath.4.pain_redeption"@.len() == 32);
    reveal_strlit("path_psychopath.4.pain");
    assert("path_psychopath.4.pain"@.len() == 22);
    match d {
        DialogueSceneId::Lab1aPass => {
            assert("lab_1.a.pass"@[8] != "lab_1.a.fail"@[8]);
        },
        DialogueSceneId::Lab2aFailIndecisive => {
            assert("lab_2.a.fail_indecisive"@[4] != "lab_1.a.pass_indecisive"@[4]);
        },
        DialogueSceneId::Lab2aFail => {
            assert("lab_2.a.fail"@[4] != "lab_1.a.fail"@[4]);
            assert("lab_2.a.fail"@[4] != "lab_1.a.pass"@[4]);
        },
        DialogueSceneId::Lab2aPassSlowAgain => {
            assert("lab_2.a.pass_slow_again"@[4] != "lab_1.a.pass_indecisive"@[4]);
            assert("lab_2.a.pass_slow_again"@[8] != "lab_2.a.fail_indecisive"@[8]);
        },
        DialogueSceneId::Lab2aPassSlow => {
            assert("lab_2.a.pass_slow"@[4] != "lab_1.a.pass_slow"@[4]);
        },
        DialogueSceneId::Lab2aPass => {
            assert("lab_2.a.pass"@[4] != "lab_1.a.fail"@[4]);
            assert("lab_2.a.pass"@[4] != "lab_1.a.pass"@[4]);
            assert("lab_2.a.pass"@[8] != "lab_2.a.fail"@[8]);
        },
        DialogueSceneId::Lab2bIntro => {
            assert("lab_2.b.intro"@[4] != "lab_1.b.intro"@[4]);
        },
        DialogueSceneId::Lab3aFailIndecisive => {
            assert("lab_3.a.fail_indecisive"@[4] != "lab_1.a.pass_indecisive"@[4]);
            assert("lab_3.a.fail_indecisive"@[4] != "lab_2.a.fail_indecisive"@[4]);
            assert("lab_3.a.fail_indecisive"@[4] != "lab_2.a.pass_slow_again"@[4]);
        },
        DialogueSceneId::Lab3bIntro => {
            assert("lab_3.b.intro"@[4] != "lab_1.b.intro"@[4]);
            assert("lab_3.b.intro"@[4] != "lab_2.b.intro"@[4]);
        },
        DialogueSceneId::PathPsychopathTryAgainPass => {
            assert("path_psychopath.0.pass"@[18] != "path_psychopath.0.fail"@[18]);
        },
        DialogueSceneId::PathPsychopathOne => {
            assert("path_psychopath.1.one"@[0] != "lab_3.a.fail_inaction"@[0]);
        },
        DialogueSceneId::PathPsychopathTwo => {
            assert("path_psychopath.1.two"@[0] != "lab_3.a.fail_inaction"@[0]);
            assert("path_psychopath.1.two"@[18] != "path_psychopath.1.one"@[18]);
        },
        DialogueSceneId::PathPsychopathBaby => {
            assert("path_psychopath.2.baby"@[16] != "path_psychopath.0.fail"@[16]);
            assert("path_psychopath.2.baby"@[16] != "path_psychopath.0.pass"@[16]);
        },
        DialogueSceneId::PathPsychopathNuns => {
            assert("path_psychopath.2.nuns"@[16] != "path_psychopath.0.fail"@[16]);
            assert("path_psychopath.2.nuns"@[16] != "path_psychopath.0.pass"@[16]);
            assert("path_psychopath.2.nuns"@[18] != "path_psychopath.2.baby"@[18]);
        },
        DialogueSceneId::PathPsychopathFast => {
            assert("path_psychopath.3.fast"@[16] != "path_psychopath.0.fail"@[16]);
            assert("path_psychopath.3.fast"@[16] != "path_psychopath.0.pass"@[16]);
            assert("path_psychopath.3.fast"@[16] != "path_psychopath.2.baby"@[16]);
            assert("path_psychopath.3.fast"@[16] != "path_psychopath.2.nuns"@[16]);
        },
        DialogueSceneId::PathPsychopathSlow => {
            assert("path_psychopath.3.slow"@[16] != "path_psychopath.0.fail"@[16]);
            assert("path_psychopath.3.slow"@[16] != "path_psychopath.0.pass"@[16]);
            assert("path_psychopath.3.slow"@[16] != "path_psychopath.2.baby"@[16]);
            assert("path_psychopath.3.slow"@[16] != "path_psychopath.2.nuns"@[16]);
            assert("path_psychopath.3.slow"@[18] != "path_psychopath.3.fast"@[18]);
        },
        DialogueSceneId::PathPsychopathCityMaxDeath => {
            assert("path_psychopath.4.city_max_death"@[16] != "path_psychopath.3.fast_repentant"@[16]);
        },
        DialogueSceneId::PathPsychopathCityRepentant => {
            assert("path_psychopath.4.city_repentant"@[16] != "path_psychopath.3.fast_repentant"@[16]);
            assert("path_psychopath.4.city_repentant"@[23] != "path_psychopath.4.city_max_death"@[23]);
        },
        DialogueSceneId::PathPsychopathCity => {
            assert("path_psychopath.4.city"@[16] != "path_psychopath.0.fail"@[16]);
            assert("path_psychopath.4.city"@[16] != "path_psychopath.0.pass"@[16]);
            assert("path_psychopath.4.city"@[16] != "path_psychopath.2.baby"@[16]);
            assert("path_psychopath.4.city"@[16] != "path_psychopath.2.nuns"@[16]);
            assert("path_psychopath.4.city"@[16] != "path_psychopath.3.fast"@[16]);
            assert("path_psychopath.4.city"@[16] != "path_psychopath.3.slow"@[16]);
        },
        DialogueSceneId::PathPsychopathPainRepentant => {
            assert("path_psychopath.4.pain_repentant"@[16] != "path_psychopath.3.fast_repentant"@[16]);
            assert("path_psychopath.4.pain_repentant"@[18] != "path_psychopath.4.city_max_death"@[18]);
            assert("path_psychopath.4.pain_repentant"@[18] != "path_psychopath.4.city_repentant"@[18]);
            assert("path_psychopath.4.pain_repentant"@[18] != "path_psychopath.4.city_redeption"@[18]);
        },
        DialogueSceneId::PathPsychopathPain => {
            assert("path_psychopath.4.pain"@[16] != "path_psychopath.0.fail"@[16]);
            assert("path_psychopath.4.pain"@[16] != "path_psychopath.0.pass"@[16]);
            assert("path_psychopath.4.pain"@[16] != "path_psychopath.2.baby"@[16]);
            assert("path_psychopath.4.pain"@[16] != "path_psychopath.2.nuns"@[16]);
            assert("path_psychopath.4.pain"@[16] != "path_psychopath.3.fast"@[16]);
            assert("path_psychopath.4.pain"@[16] != "path_psychopath.3.slow"@[16]);
            assert("path_psychopath.4.pain"@[18] != "path_psychopath.4.city"@[18]);
        },
        _ => {},
    }
}

/// `prefix.<stage>.<outcome>` with `min <= stage <= max`: exactly three dot-separated parts.
pub open spec fn path_with_outcome(id: Seq<char>, prefix: Seq<char>, min: u8, max: u8) -> Option<(u8, PathOutcomeId)> {
    let parts = split_on(id, '.');
    if parts.len() == 3 && parts[0] == prefix {
        match parse_u8_spec(parts[1]) {
            Some(stage) => if min <= stage && stage <= max {
                match outcome_from(parts[2]) {
                    Some(outcome) => Some((stage, outcome)),
                    None => None,
                }
            } else {
                None
            },
            None => None,
        }
    } else {
        None
    }
}

/// `prefix.<stage>` with `min <= stage <= max`: exactly two dot-separated parts.
pub open spec fn path_index(id: Seq<char>, prefix: Seq<char>, min: u8, max: u8) -> Option<u8> {
    let parts = split_on(id, '.');
    if parts.len() == 2 && parts[0] == prefix {
        match parse_u8_spec(parts[1]) {
            Some(stage) => if min <= stage && stage <= max {
                Some(stage)
            } else {
                None
            },
            None => None,
        }
    } else {
        None
    }
}

/// The dialogue that `id` names: a fixed identifier first, then the inaction (stages 0 to 6),
/// deontological (0 to 3) and utilitarian (1 to 4) path dialogues.
pub open spec fn dialogue_id_from(id: Seq<char>) -> Option<DialogueSceneId> {
    if static_dialogue_id(id) is Some {
        static_dialogue_id(id)
    } else if path_with_outcome(id, "path_inaction"@, 0, 6) is Some {
        let (stage, outcome) = path_with_outcome(id, "path_inaction"@, 0, 6)->0;
        Some(DialogueSceneId::PathInaction { stage, outcome })
    } else if path_with_outcome(id, "path_deontological"@, 0, 3) is Some {
        let (stage, outcome) = path_with_outcome(id, "path_deontological"@, 0, 3)->0;
        Some(DialogueSceneId::PathDeontological { stage, outcome })
    } else if path_with_outcome(id, "path_utilitarian"@, 1, 4) is Some {
        let (stage, outcome) = path_with_outcome(id, "path_utilitarian"@, 1, 4)->0;
        Some(DialogueSceneId::PathUtilitarian { stage, outcome })
    } else {
        None
    }
}

impl DialogueSceneId {
    pub fn parse(id: &str) -> (r: Option<DialogueSceneId>)
        ensures
            r == dialogue_id_from(id@),
    {
        let chars = chars_of(id);
        let static_id = Self::parse_static(&chars);
        if static_id.is_some() {
            return static_id;
        }
        if let Some((stage, outcome)) = parse_path_with_outcome(id, "path_inaction", 0, 6) {
            return Some(DialogueSceneId::PathInaction { stage, outcome });
        }
        if let Some((stage, outcome)) = parse_path_with_outcome(id, "path_deontological", 0, 3) {
            return Some(DialogueSceneId::PathDeontological { stage, outcome });
        }
        if let Some((stage, outcome)) = parse_path_with_outcome(id, "path_utilitarian", 1, 4) {
            return Some(DialogueSceneId::PathUtilitarian { stage, outcome });
        }
        None
    }

    fn parse_static(id: &Vec<char>) -> (r: Option<DialogueSceneId>)
        ensures
            r == static_dialogue_id(id@),
    {
        if chars_eq_str(id, "lab_1.a.fail") {
            return Some(DialogueSceneId::Lab1aFail);
        }
        if chars_eq_str(id, "lab_1.a.pass_indecisive") {
            return Some(DialogueSceneId::Lab1aPassIndecisive);
        }
        if chars_eq_str(id, "lab_1.a.fail_very_indecisive") {
            return Some(DialogueSceneId::Lab1aFailVeryIndecisive);
        }
        if chars_eq_str(id, "lab_1.a.pass") {
            return Some(DialogueSceneId::Lab1aPass);
        }
        if chars_eq_str(id, "lab_1.a.pass_slow") {
            return Some(DialogueSceneId::Lab1aPassSlow);
        }
        if chars_eq_str(id, "lab_1.b.intro") {
            return Some(DialogueSceneId::Lab1bIntro);
        }
        if chars_eq_str(id, "lab_2.a.fail_indecisive") {
            return Some(DialogueSceneId::Lab2aFailIndecisive);
        }
        if chars_eq_str(id, "lab_2.a.fail") {
            return Some(DialogueSceneId::Lab2aFail);
        }
        if chars_eq_str(id, "lab_2.a.pass_slow_again") {
            return Some(DialogueSceneId::Lab2aPassSlowAgain);
        }
        if chars_eq_str(id, "lab_2.a.pass_slow") {
            return Some(DialogueSceneId::Lab2aPassSlow);
        }
        if chars_eq_str(id, "lab_2.a.pass") {
            return Some(DialogueSceneId::Lab2aPass);
        }
        if chars_eq_str(id, "lab_2.b.intro") {
            return Some(DialogueSceneId::Lab2bIntro);
        }
        if chars_eq_str(id, "lab_3.a.fail_indecisive") {
            return Some(DialogueSceneId::Lab3aFailIndecisive);
        }
        if chars_eq_str(id, "lab_3.a.fail_inaction") {
            return Some(DialogueSceneId::Lab3aFailInaction);
        }
        if chars_eq_str(id, "lab_3.a.pass_utilitarian") {
            return Some(DialogueSceneId::Lab3aPassUtilitarian);
        }
        if chars_eq_str(id, "path_deontological.fail_indecisive") {
            return Some(DialogueSceneId::PathDeontologicalFailIndecisive);
        }
        if chars_eq_str(id, "lab_3.b.intro") {
            return Some(DialogueSceneId::Lab3bIntro);
        }
        if chars_eq_str(id, "lab_4.outro") {
            return Some(DialogueSceneId::Lab4Outro);
        }
        if chars_eq_str(id, "path_psychopath.0.fail") {
            return Some(DialogueSceneId::PathPsychopathTryAgainFail);
        }
        if chars_eq_str(id, "path_psychopath.0.pass") {
            return Some(DialogueSceneId::PathPsychopathTryAgainPass);
        }
        if chars_eq_str(id, "path_psychopath.1.one") {
            return Some(DialogueSceneId::PathPsychopathOne);
        }
        if chars_eq_str(id, "path_psychopath.1.two") {
            return Some(DialogueSceneId::PathPsychopathTwo);
        }
        if chars_eq_str(id, "path_psychopath.2.baby_one") {
            return Some(DialogueSceneId::PathPsychopathBabyOne);
        }
        if chars_eq_str(id, "path_psychopath.2.baby") {
            return Some(DialogueSceneId::PathPsychopathBaby);
        }
        if chars_eq_str(id, "path_psychopath.2.nuns") {
            return Some(DialogueSceneId::PathPsychopathNuns);
        }
        if chars_eq_str(id, "path_psychopath.3.fast_repentant") {
            return Some(DialogueSceneId::PathPsychopathFastRepentant);
        }
        if chars_eq_str(id, "path_psychopath.3.fast") {
            return Some(DialogueSceneId::PathPsychopathFast);
        }
        if chars_eq_str(id, "path_psychopath.3.slow") {
            return Some(DialogueSceneId::PathPsychopathSlow);
        }
        if chars_eq_str(id, "path_psychopath.4.city_max_death") {
            return Some(DialogueSceneId::PathPsychopathCityMaxDeath);
        }
        if chars_eq_str(id, "path_psychopath.4.city_repentant") {
            return Some(DialogueSceneId::PathPsychopathCityRepentant);
        }
        if chars_eq_str(id, "path_psychopath.4.city_redeption") {
            return Some(DialogueSceneId::PathPsychopathCityRepentant);
        }
        if chars_eq_str(id, "path_psychopath.4.city") {
            return Some(DialogueSceneId::PathPsychopathCity);
        }
        if chars_eq_str(id, "path_psychopath.4.pain_max_pain") {
            return Some(DialogueSceneId::PathPsychopathPainMaxPain);
        }
        if chars_eq_str(id, "path_psychopath.4.pain_repentant") {
            return Some(DialogueSceneId::PathPsychopathPainRepentant);
        }
        if chars_eq_str(id, "path_psychopath.4.pain_redeption") {
            return Some(DialogueSceneId::PathPsychopathPainRepentant);
        }
        if chars_eq_str(id, "path_psychopath.4.pain") {
            return Some(DialogueSceneId::PathPsychopathPain);
        }
        None
    }
}

#[derive(Debug, Clone, Copy, PartialEq, Eq, Hash, Structural)]
pub enum DilemmaSceneId {
    Lab0IncompetentBandit,
    Lab1NearSightedBandit,
    Lab2TheTrolleyProblem,
    Lab3AsleepAtTheJob,
    Lab4RandomDeaths,
    PathInaction { stage: u8 },
    PathPsychopath { stage: u8 },
    PathDeontological { stage: u8 },
    PathUtilitarian { stage: u8 },
    DayPersonal { stage: u8 },
}

/// The dilemma that a fixed identifier names.
pub open spec fn static_dilemma_id(id: Seq<char>) -> Option<DilemmaSceneId> {
    if id == "lab_0.incompetent_bandit"@ {
        Some(DilemmaSceneId::Lab0IncompetentBandit)
    } else if id == "lab_1.near_sighted_bandit"@ {
        Some(DilemmaSceneId::Lab1NearSightedBandit)
    } else if id == "lab_2.the_trolley_problem"@ {
        Some(DilemmaSceneId::Lab2TheTrolleyProblem)
    } else if id == "lab_3.asleep_at_the_job"@ {
        Some(DilemmaSceneId::Lab3AsleepAtTheJob)
    } else if id == "lab_4.random_deaths"@ {
        Some(DilemmaSceneId::Lab4RandomDeaths)
    } else {
        None
    }
}

/// The dilemma that `id` names: a fixed identifier first, then the inaction (stages 0 to 6),
/// psychopath (0 to 4), deontological (0 to 2), utilitarian (0 to 3) and personal-day
/// (0 to 7) path dilemmas.
pub open spec fn dilemma_id_from(id: Seq<char>) -> Option<DilemmaSceneId> {
    if static_dilemma_id(id) is Some {
        static_dilemma_id(id)
    } else if path_index(id, "path_inaction"@, 0, 6) is Some {
        Some(DilemmaSceneId::PathInaction { stage: path_index(id, "path_inaction"@, 0, 6)->0 })
    } else if path_index(id, "path_psychopath"@, 0, 4) is Some {
        Some(DilemmaSceneId::PathPsychopath { stage: path_index(id, "path_psychopath"@, 0, 4)->0 })
    } else if path_index(id, "path_deontological"@, 0, 2) is Some {
        Some(DilemmaSceneId::PathDeontological { stage: path_index(id, "path_deontological"@, 0, 2)->0 })
    } else if path_index(id, "path_utilitarian"@, 0, 3) is Some {
        Some(DilemmaSceneId::PathUtilitarian { stage: path_index(id, "path_utilitarian"@, 0, 3)->0 })
    } else if path_index(id, "day_personal"@, 0, 7) is Some {
        Some(DilemmaSceneId::DayPersonal { stage: path_index(id, "day_personal"@, 0, 7)->0 })
    } else {
        None
    }
}

impl DilemmaSceneId {
    pub fn parse(id: &str) -> (r: Option<DilemmaSceneId>)
        ensures
            r == dilemma_id_from(id@),
    {
        let chars = chars_of(id);
        let static_id = Self::parse_static(&chars);
        if static_id.is_some() {
            return static_id;
        }
        if let Some(stage) = parse_path_index(id, "path_inaction", 0, 6) {
            return Some(DilemmaSceneId::PathInaction { stage });
        }
        if let Some(stage) = parse_path_index(id, "path_psychopath", 0, 4) {
            return Some(DilemmaSceneId::PathPsychopath { stage });
        }
        if let Some(stage) = parse_path_index(id, "path_deontological", 0, 2) {
            return Some(DilemmaSceneId::PathDeontological { stage });
        }
        if let Some(stage) = parse_path_index(id, "path_utilitarian", 0, 3) {
            return Some(DilemmaSceneId::PathUtilitarian { stage });
        }
        if let Some(stage) = parse_path_index(id, "day_personal", 0, 7) {
            return Some(DilemmaSceneId::DayPersonal { stage });
        }
        None
    }

    fn parse_static(id: &Vec<char>) -> (r: Option<DilemmaSceneId>)
        ensures
            r == static_dilemma_id(id@),
    {
        if chars_eq_str(id, "lab_0.incompetent_bandit") {
            return Some(DilemmaSceneId::Lab0IncompetentBandit);
        }
        if chars_eq_str(id, "lab_1.near_sighted_bandit") {
            return Some(DilemmaSceneId::Lab1NearSightedBandit);
        }
        if chars_eq_str(id, "lab_2.the_trolley_problem") {
            return Some(DilemmaSceneId::Lab2TheTrolleyProblem);
        }
        if chars_eq_str(id, "lab_3.asleep_at_the_job") {
            return Some(DilemmaSceneId::Lab3AsleepAtTheJob);
        }
        if chars_eq_str(id, "lab_4.random_deaths") {
            return Some(DilemmaSceneId::Lab4RandomDeaths);
        }
        None
    }
}

#[derive(Debug, Clone, Copy, PartialEq, Eq, Hash, Structural)]
pub enum EndingSceneId {
    IdioticPsychopath,
    ImpatientPsychopath,
    Leverophile,
    ConfusedDeontologist,
    SelectiveDeontologist,
    TrueDeontologist,
    TrueNeutral,
    DayPersonalAllMenKilled,
    DayPersonalAllWomenKilled,
    DayPersonalIgnoredBomb,
    DayPersonalDidNothing,
}

/// The ending that `id` names.
pub open spec fn ending_id_from(id: Seq<char>) -> Option<EndingSceneId> {
    if id == "idiotic_psychopath"@ {
        Some(EndingSceneId::IdioticPsychopath)
    } else if id == "impatient_psychopath"@ {
        Some(EndingSceneId::ImpatientPsychopath)
    } else if id == "leverophile"@ {
        Some(EndingSceneId::Leverophile)
    } else if id == "confused_deontologist"@ {
        Some(EndingSceneId::ConfusedDeontologist)
    } else if id == "selective_deontologist"@ {
        Some(EndingSceneId::SelectiveDeontologist)
    } else if id == "true_deontologist"@ {
        Some(EndingSceneId::TrueDeontologist)
    } else if id == "true_neutral"@ {
        Some(EndingSceneId::TrueNeutral)
    } else if id == "day_personal_all_men_killed"@ {
        Some(EndingSceneId::DayPersonalAllMenKilled)
    } else if id == "day_personal_all_women_killed"@ {
        Some(EndingSceneId::DayPersonalAllWomenKilled)
    } else if id == "day_personal_ignored_bomb"@ {
        Some(EndingSceneId::DayPersonalIgnoredBomb)
    } else if id == "day_personal_did_nothing"@ {
        Some(EndingSceneId::DayPersonalDidNothing)
    } else {
        None
    }
}

impl EndingSceneId {
    pub fn parse(id: &str) -> (r: Option<EndingSceneId>)
        ensures
            r == ending_id_from(id@),
    {
        let chars = chars_of(id);
        Self::parse_chars(&chars)
    }

    fn parse_chars(id: &Vec<char>) -> (r: Option<EndingSceneId>)
        ensures
            r == ending_id_from(id@),
    {
        if chars_eq_str(id, "idiotic_psychopath") {
            return Some(EndingSceneId::IdioticPsychopath);
        }
        if chars_eq_str(id, "impatient_psychopath") {
            return Some(EndingSceneId::ImpatientPsychopath);
        }
        if chars_eq_str(id, "leverophile") {
            return Some(EndingSceneId::Leverophile);
        }
        if chars_eq_str(id, "confused_deontologist") {
            return Some(EndingSceneId::ConfusedDeontologist);
        }
        if chars_eq_str(id, "selective_deontologist") {
            return Some(EndingSceneId::SelectiveDeontologist);
        }
        if chars_eq_str(id, "true_deontologist") {
            return Some(EndingSceneId::TrueDeontologist);
        }
        if chars_eq_str(id, "true_neutral") {
            return Some(EndingSceneId::TrueNeutral);
        }
        if chars_eq_str(id, "day_personal_all_men_killed") {
            return Some(EndingSceneId::DayPersonalAllMenKilled);
        }
        if chars_eq_str(id, "day_personal_all_women_killed") {
            return Some(EndingSceneId::DayPersonalAllWomenKilled);
        }
        if chars_eq_str(id, "day_personal_ignored_bomb") {
            return Some(EndingSceneId::DayPersonalIgnoredBomb);
        }
        if chars_eq_str(id, "day_personal_did_nothing") {
            return Some(EndingSceneId::DayPersonalDidNothing);
        }
        None
    }
}

#[derive(Debug, Clone, Copy, PartialEq, Eq, Hash, Structural)]
pub enum TypedSceneRef {
    Menu,
    Loading,
    Dialogue(DialogueSceneId),
    Dilemma(DilemmaSceneId),
    Ending(EndingSceneId),
}

#[derive(Debug, Clone, PartialEq, Eq)]
pub enum SceneIdParseError {
    UnknownDialogueId(String),
    UnknownDilemmaId(String),
    UnknownEndingId(String),
}

/// What a [`SceneIdParseError`] reports: which kind of id was unknown, and the id.
pub enum SceneIdParseErrorView {
    UnknownDialogueId(Seq<char>),
    UnknownDilemmaId(Seq<char>),
    UnknownEndingId(Seq<char>),
}

impl View for SceneIdParseError {
    type V = SceneIdParseErrorView;

    open spec fn view(&self) -> SceneIdParseErrorView {
        match self {
            SceneIdParseError::UnknownDialogueId(id) => SceneIdParseErrorView::UnknownDialogueId(id@),
            SceneIdParseError::UnknownDilemmaId(id) => SceneIdParseErrorView::UnknownDilemmaId(id@),
            SceneIdParseError::UnknownEndingId(id) => SceneIdParseErrorView::UnknownEndingId(id@),
        }
    }
}

/// The message of a parse error: ``unknown <kind> id `<id>` ``.
pub open spec fn parse_error_message(e: SceneIdParseErrorView) -> Seq<char> {
    match e {
        SceneIdParseErrorView::UnknownDialogueId(id) => "unknown dialogue id `"@ + id + "`"@,
        SceneIdParseErrorView::UnknownDilemmaId(id) => "unknown dilemma id `"@ + id + "`"@,
        SceneIdParseErrorView::UnknownEndingId(id) => "unknown ending id `"@ + id + "`"@,
    }
}

impl SceneIdParseError {
    /// The message that reports this error.
    pub fn to_string(&self) -> (r: String)
        ensures
            r@ == parse_error_message(self@),
    {
        let (head, id) = match self {
            SceneIdParseError::UnknownDialogueId(id) => ("unknown dialogue id `", id),
            SceneIdParseError::UnknownDilemmaId(id) => ("unknown dilemma id `", id),
            SceneIdParseError::UnknownEndingId(id) => ("unknown ending id `", id),
        };
        let mut message = string_of(head);
        push_str(&mut message, id.as_str());
        push_str(&mut message, "`");
        message
    }

    /// A copy reporting the same error.
    pub fn duplicate(&self) -> (r: SceneIdParseError)
        ensures
            r@ == self@,
    {
        match self {
            SceneIdParseError::UnknownDialogueId(id) => SceneIdParseError::UnknownDialogueId(id.clone()),
            SceneIdParseError::UnknownDilemmaId(id) => SceneIdParseError::UnknownDilemmaId(id.clone()),
            SceneIdParseError::UnknownEndingId(id) => SceneIdParseError::UnknownEndingId(id.clone()),
        }
    }
}

/// The typed scene that `scene` names, or the error that reports its unknown id.
pub open spec fn typed_scene_ref_from(scene: SceneRefView) -> Result<TypedSceneRef, SceneIdParseErrorView> {
    match scene {
        SceneRefView::Menu => Ok(TypedSceneRef::Menu),
        SceneRefView::Loading => Ok(TypedSceneRef::Loading),
        SceneRefView::Dialogue(id) => match dialogue_id_from(id) {
            Some(d) => Ok(TypedSceneRef::Dialogue(d)),
            None => Err(SceneIdParseErrorView::UnknownDialogueId(id)),
        },
        SceneRefView::Dilemma(id) => match dilemma_id_from(id) {
            Some(d) => Ok(TypedSceneRef::Dilemma(d)),
            None => Err(SceneIdParseErrorView::UnknownDilemmaId(id)),
        },
        SceneRefView::Ending(id) => match ending_id_from(id) {
            Some(e) => Ok(TypedSceneRef::Ending(e)),
            None => Err(SceneIdParseErrorView::UnknownEndingId(id)),
        },
    }
}

/// The view of a conversion result: the typed scene, or what the error reports.
pub open spec fn typed_result_view(r: Result<TypedSceneRef, SceneIdParseError>) -> Result<TypedSceneRef, SceneIdParseErrorView> {
    match r {
        Ok(t) => Ok(t),
        Err(e) => Err(e@),
    }
}

impl TypedSceneRef {
    /// Reads the typed scene that `scene` names.
    pub fn try_from(scene: &SceneRef) -> (r: Result<TypedSceneRef, SceneIdParseError>)
        ensures
            typed_result_view(r) == typed_scene_ref_from(scene@),
    {
        match scene {
            SceneRef::Menu => Ok(TypedSceneRef::Menu),
            SceneRef::Loading => Ok(TypedSceneRef::Loading),
            SceneRef::Dialogue { id } => match DialogueSceneId::parse(id.as_str()) {
                Some(d) => Ok(TypedSceneRef::Dialogue(d)),
                None => Err(SceneIdParseError::UnknownDialogueId(id.clone())),
            },
            SceneRef::Dilemma { id } => match DilemmaSceneId::parse(id.as_str()) {
                Some(d) => Ok(TypedSceneRef::Dilemma(d)),
                None => Err(SceneIdParseError::UnknownDilemmaId(id.clone())),
            },
            SceneRef::Ending { id } => match EndingSceneId::parse(id.as_str()) {
                Some(e) => Ok(TypedSceneRef::Ending(e)),
                None => Err(SceneIdParseError::UnknownEndingId(id.clone())),
            },
        }
    }
}

/// Reads `prefix.<stage>.<outcome>`, with a stage from `min_stage` to `max_stage`.
pub fn parse_path_with_outcome(id: &str, prefix: &str, min_stage: u8, max_stage: u8) -> (r: Option<(u8, PathOutcomeId)>)
    ensures
        r == path_with_outcome(id@, prefix@, min_stage, max_stage),
{
    let chars = chars_of(id);
    let parts = split_chars(&chars, '.');
    proof {
        lemma_split_on_nonempty(id@, '.');
    }
    if parts.len() != 3 || !chars_eq_str(&parts[0], prefix) {
        assert(parts.len() == 3 ==> views_of(parts@)[0] == parts@[0]@);
        return None;
    }
    assert(views_of(parts@)[1] == parts@[1]@);
    assert(views_of(parts@)[2] == parts@[2]@);
    let stage = match parse_u8_chars(&parts[1]) {
        Some(stage) => stage,
        None => return None,
    };
    if stage < min_stage || stage > max_stage {
        return None;
    }
    match PathOutcomeId::parse_chars(&parts[2]) {
        Some(outcome) => Some((stage, outcome)),
        None => None,
    }
}

/// Reads `prefix.<stage>`, with a stage from `min_stage` to `max_stage`.
pub fn parse_path_index(id: &str, prefix: &str, min_stage: u8, max_stage: u8) -> (r: Option<u8>)
    ensures
        r == path_index(id@, prefix@, min_stage, max_stage),
{
    let chars = chars_of(id);
    let parts = split_chars(&chars, '.');
    if parts.len() != 2 || !chars_eq_str(&parts[0], prefix) {
        assert(parts.len() == 2 ==> views_of(parts@)[0] == parts@[0]@);
        return None;
    }
    assert(views_of(parts@)[1] == parts@[1]@);
    let stage = match parse_u8_chars(&parts[1]) {
        Some(stage) => stage,
        None => return None,
    };
    if stage < min_stage || stage > max_stage {
        return None;
    }
    Some(stage)
}

} // verus!

//! Following the campaign graph: which scenes come after the dilemma just played.
use vstd::prelude::*;

use crate::ids::{
    ending_id_from, parse_error_message, typed_scene_ref_from, DialogueSceneId, DilemmaSceneId, EndingSceneId,
    PathOutcomeId, TypedSceneRef,
};
use crate::lever::{lever_index, LeverState};
use crate::scenes::{
    day_personal_spec, path_deontological_spec, path_inaction_spec, path_psychopath_spec,
    path_utilitarian_spec, DeontologicalPath, DialogueScene, DilemmaScene, EndingScene,
    InactionPath, Lab0Dilemma, Lab1Dilemma, Lab1aDialogue, Lab1bDialogue, Lab2Dilemma,
    Lab2aDialogue, Lab2bDialogue, Lab3Dilemma, Lab3aDialogue, Lab3bDialogue, Lab4Dilemma,
    Lab4Dialogue, PathOutcome, PsychopathDialogue, Scene, UtilitarianPath,
};
use crate::schema::{
    resolved_scenes, FlowEvalContext, FlowEvalContextView, RouteDefinition,
    SceneProgressionGraph, SceneRef,
};
use crate::stats::{DilemmaStats, GameStats};
use crate::text::{decimal_spec, push_decimal, push_str, string_of};
use crate::validate::{errors_view, graph_errors, validate_graph, GraphValidationError, GraphValidationErrorView};

verus! {

#[derive(Debug, Clone)]
pub enum FlowEvalError {
    GraphParse(String),
    GraphValidation(Vec<GraphValidationError>),
    RouteMapping(String),
}

/// What a [`FlowEvalError`] reports.
pub enum FlowEvalErrorView {
    GraphParse(Seq<char>),
    GraphValidation(Seq<GraphValidationErrorView>),
    RouteMapping(Seq<char>),
}

impl View for FlowEvalError {
    type V = FlowEvalErrorView;

    open spec fn view(&self) -> FlowEvalErrorView {
        match self {
            FlowEvalError::GraphParse(m) => FlowEvalErrorView::GraphParse(m@),
            FlowEvalError::GraphValidation(errors) => FlowEvalErrorView::GraphValidation(errors_view(errors@)),
            FlowEvalError::RouteMapping(m) => FlowEvalErrorView::RouteMapping(m@),
        }
    }
}

/// The message of an error: the parse or mapping message, or the number of validation errors.
pub open spec fn flow_error_message(e: FlowEvalErrorView) -> Seq<char> {
    match e {
        FlowEvalErrorView::GraphParse(m) => m,
        FlowEvalErrorView::GraphValidation(errors) =>
            "campaign graph failed validation with "@ + decimal_spec(errors.len()) + " error(s)"@,
        FlowEvalErrorView::RouteMapping(m) => m,
    }
}

impl FlowEvalError {
    /// The message that reports this error.
    pub fn to_string(&self) -> (r: String)
        ensures
            r@ == flow_error_message(self@),
    {
        match self {
            FlowEvalError::GraphParse(m) => string_of(m.as_str()),
            FlowEvalError::GraphValidation(errors) => {
                let mut message = string_of("campaign graph failed validation with ");
                push_decimal(&mut message, errors.len());
                push_str(&mut message, " error(s)");
                message
            },
            FlowEvalError::RouteMapping(m) => string_of(m.as_str()),
        }
    }

    /// A copy with the same report.
    pub fn duplicate(&self) -> (r: FlowEvalError)
        ensures
            r@ == self@,
    {
        match self {
            FlowEvalError::GraphParse(m) => FlowEvalError::GraphParse(m.clone()),
            FlowEvalError::GraphValidation(errors) => {
                let mut copies: Vec<GraphValidationError> = Vec::new();
                let mut i: usize = 0;
                while i < errors.len()
                    invariant
                        i <= errors@.len(),
                        errors_view(copies@) == errors_view(errors@).subrange(0, i as int),
                    decreases errors.len() - i,
                {
                    let ghost before = copies@;
                    let copy = errors[i].duplicate();
                    copies.push(copy);
                    assert(errors_view(copies@) =~= errors_view(before).push(copy@));
                    assert(errors_view(errors@).subrange(0, i + 1) =~= errors_view(errors@).subrange(0, i as int).push(errors@[i as int]@));
                    i = i + 1;
                }
                assert(errors_view(errors@).subrange(0, errors@.len() as int) =~= errors_view(errors@));
                FlowEvalError::GraphValidation(copies)
            },
            FlowEvalError::RouteMapping(m) => FlowEvalError::RouteMapping(m.clone()),
        }
    }
}

/// A graph is used only when it has no validation error.
pub fn check_campaign_graph(graph: SceneProgressionGraph) -> (r: Result<SceneProgressionGraph, FlowEvalError>)
    ensures
        graph_errors(graph.routes@, graph.routes@.len()).len() == 0 ==> r == Ok::<SceneProgressionGraph, FlowEvalError>(graph),
        graph_errors(graph.routes@, graph.routes@.len()).len() > 0 ==> (r matches Err(e)
            && e@ == FlowEvalErrorView::GraphValidation(graph_errors(graph.routes@, graph.routes@.len()))),
{
    let validation_errors = validate_graph(&graph);
    if validation_errors.len() > 0 {
        return Err(FlowEvalError::GraphValidation(validation_errors));
    }
    Ok(graph)
}

/// The outcome of a path dialogue id as the dialogue scenes hold it.
pub open spec fn path_outcome_spec(outcome: PathOutcomeId) -> PathOutcome {
    match outcome {
        PathOutcomeId::Pass => PathOutcome::Pass,
        PathOutcomeId::Fail => PathOutcome::Fail,
    }
}

pub fn path_outcome_from_id(outcome: PathOutcomeId) -> (r: PathOutcome)
    ensures
        r == path_outcome_spec(outcome),
{
    match outcome {
        PathOutcomeId::Pass => PathOutcome::Pass,
        PathOutcomeId::Fail => PathOutcome::Fail,
    }
}

/// The dialogue scene that `id` names.
pub open spec fn dialogue_scene_spec(id: DialogueSceneId) -> DialogueScene {
    match id {
        DialogueSceneId::Lab1aFail => DialogueScene::Lab1a(Lab1aDialogue::Fail),
        DialogueSceneId::Lab1aPassIndecisive => DialogueScene::Lab1a(Lab1aDialogue::PassIndecisive),
        DialogueSceneId::Lab1aFailVeryIndecisive => DialogueScene::Lab1a(Lab1aDialogue::FailVeryIndecisive),
        DialogueSceneId::Lab1aPass => DialogueScene::Lab1a(Lab1aDialogue::Pass),
        DialogueSceneId::Lab1aPassSlow => DialogueScene::Lab1a(Lab1aDialogue::PassSlow),
        DialogueSceneId::Lab1bIntro => DialogueScene::Lab1b(Lab1bDialogue::DilemmaIntro),
        DialogueSceneId::Lab2aFailIndecisive => DialogueScene::Lab2a(Lab2aDialogue::FailIndecisive),
        DialogueSceneId::Lab2aFail => DialogueScene::Lab2a(Lab2aDialogue::Fail),
        DialogueSceneId::Lab2aPassSlowAgain => DialogueScene::Lab2a(Lab2aDialogue::PassSlowAgain),
        DialogueSceneId::Lab2aPassSlow => DialogueScene::Lab2a(Lab2aDialogue::PassSlow),
        DialogueSceneId::Lab2aPass => DialogueScene::Lab2a(Lab2aDialogue::Pass),
        DialogueSceneId::Lab2bIntro => DialogueScene::Lab2b(Lab2bDialogue::Intro),
        DialogueSceneId::Lab3aFailIndecisive => DialogueScene::Lab3a(Lab3aDialogue::FailIndecisive),
        DialogueSceneId::Lab3aFailInaction => DialogueScene::Lab3a(Lab3aDialogue::FailInaction),
        DialogueSceneId::Lab3aPassUtilitarian => DialogueScene::Lab3a(Lab3aDialogue::PassUtilitarian),
        DialogueSceneId::PathDeontologicalFailIndecisive => DialogueScene::Lab3a(Lab3aDialogue::DeontologicalFailIndecisive),
        DialogueSceneId::Lab3bIntro => DialogueScene::Lab3b(Lab3bDialogue::Intro),
        DialogueSceneId::Lab4Outro => DialogueScene::Lab4(Lab4Dialogue::Outro),
        DialogueSceneId::PathPsychopathTryAgainFail => DialogueScene::PathPsychopath(PsychopathDialogue::TryAgainFail),
        DialogueSceneId::PathPsychopathTryAgainPass => DialogueScene::PathPsychopath(PsychopathDialogue::TryAgainPass),
        DialogueSceneId::PathPsychopathOne => DialogueScene::PathPsychopath(PsychopathDialogue::One),
        DialogueSceneId::PathPsychopathTwo => DialogueScene::PathPsychopath(PsychopathDialogue::Two),
        DialogueSceneId::PathPsychopathBabyOne => DialogueScene::PathPsychopath(PsychopathDialogue::BabyOne),
        DialogueSceneId::PathPsychopathBaby => DialogueScene::PathPsychopath(PsychopathDialogue::Baby),
        DialogueSceneId::PathPsychopathNuns => DialogueScene::PathPsychopath(PsychopathDialogue::Nuns),
        DialogueSceneId::PathPsychopathFastRepentant => DialogueScene::PathPsychopath(PsychopathDialogue::FastRepentant),
        DialogueSceneId::PathPsychopathFast => DialogueScene::PathPsychopath(PsychopathDialogue::Fast),
        DialogueSceneId::PathPsychopathSlow => DialogueScene::PathPsychopath(PsychopathDialogue::Slow),
        DialogueSceneId::PathPsychopathCityMaxDeath => DialogueScene::PathPsychopath(PsychopathDialogue::CityMaxDeath),
        DialogueSceneId::PathPsychopathCityRepentant => DialogueScene::PathPsychopath(PsychopathDialogue::CityRepentant),
        DialogueSceneId::PathPsychopathCity => DialogueScene::PathPsychopath(PsychopathDialogue::City),
        DialogueSceneId::PathPsychopathPainMaxPain => DialogueScene::PathPsychopath(PsychopathDialogue::PainMaxPain),
        DialogueSceneId::PathPsychopathPainRepentant => DialogueScene::PathPsychopath(PsychopathDialogue::PainRepentant),
        DialogueSceneId::PathPsychopathPain => DialogueScene::PathPsychopath(PsychopathDialogue::Pain),
        DialogueSceneId::PathInaction { stage, outcome } => DialogueScene::Lab2a(Lab2aDialogue::PathInaction(
            InactionPath::spec_new(stage as usize, path_outcome_spec(outcome)))),
        DialogueSceneId::PathDeontological { stage, outcome } => DialogueScene::Lab3a(Lab3aDialogue::DeontologicalPath(
            DeontologicalPath::spec_new(stage as usize, path_outcome_spec(outcome)))),
        DialogueSceneId::PathUtilitarian { stage, outcome } => DialogueScene::Lab4(Lab4Dialogue::UtilitarianPath(
            UtilitarianPath::spec_new(stage as usize, path_outcome_spec(outcome)))),
    }
}

/// ``<path> stage <stage> is out of range``.
pub open spec fn stage_out_of_range(path: Seq<char>, stage: u8) -> Seq<char> {
    path + " stage "@ + decimal_spec(stage as nat) + " is out of range"@
}

/// The path dilemma of `stage`, or the message that the path has no such stage.
pub open spec fn staged_dilemma(found: Option<DilemmaScene>, path: Seq<char>, stage: u8) -> Result<DilemmaScene, Seq<char>> {
    match found {
        Some(scene) => Ok(scene),
        None => Err(stage_out_of_range(path, stage)),
    }
}

/// The dilemma scene that `id` names, or why there is none.
pub open spec fn dilemma_scene_spec(id: DilemmaSceneId) -> Result<DilemmaScene, Seq<char>> {
    match id {
        DilemmaSceneId::Lab0IncompetentBandit => Ok(DilemmaScene::Lab0(Lab0Dilemma::IncompetentBandit)),
        DilemmaSceneId::Lab1NearSightedBandit => Ok(DilemmaScene::Lab1(Lab1Dilemma::NearSightedBandit)),
        DilemmaSceneId::Lab2TheTrolleyProblem => Ok(DilemmaScene::Lab2(Lab2Dilemma::TheTrolleyProblem)),
        DilemmaSceneId::Lab3AsleepAtTheJob => Ok(DilemmaScene::Lab3(Lab3Dilemma::AsleepAtTheJob)),
        DilemmaSceneId::Lab4RandomDeaths => Ok(DilemmaScene::Lab4(Lab4Dilemma::RandomDeaths)),
        DilemmaSceneId::PathInaction { stage } => staged_dilemma(path_inaction_spec(stage as int), "path_inaction"@, stage),
        DilemmaSceneId::PathPsychopath { stage } => staged_dilemma(path_psychopath_spec(stage as int), "path_psychopath"@, stage),
        DilemmaSceneId::PathDeontological { stage } => staged_dilemma(path_deontological_spec(stage as int), "path_deontological"@, stage),
        DilemmaSceneId::PathUtilitarian { stage } => staged_dilemma(path_utilitarian_spec(stage as int), "path_utilitarian"@, stage),
        DilemmaSceneId::DayPersonal { stage } => staged_dilemma(day_personal_spec(stage as int), "day_personal"@, stage),
    }
}

/// The ending scene that `id` names.
pub open spec fn ending_scene_spec(id: EndingSceneId) -> EndingScene {
    match id {
        EndingSceneId::IdioticPsychopath => EndingScene::IdioticPsychopath,
        EndingSceneId::ImpatientPsychopath => EndingScene::ImpatientPsychopath,
        EndingSceneId::Leverophile => EndingScene::Leverophile,
        EndingSceneId::ConfusedDeontologist => EndingScene::ConfusedDeontologist,
        EndingSceneId::SelectiveDeontologist => EndingScene::SelectiveDeontologist,
        EndingSceneId::TrueDeontologist => EndingScene::TrueDeontologist,
        EndingSceneId::TrueNeutral => EndingScene::TrueNeutral,
        EndingSceneId::DayPersonalAllMenKilled => EndingScene::DayPersonalAllMenKilled,
        EndingSceneId::DayPersonalAllWomenKilled => EndingScene::DayPersonalAllWomenKilled,
        EndingSceneId::DayPersonalIgnoredBomb => EndingScene::DayPersonalIgnoredBomb,
        EndingSceneId::DayPersonalDidNothing => EndingScene::DayPersonalDidNothing,
    }
}

/// The scene that plays for `scene`, or why there is none.
pub open spec fn runtime_scene_spec(scene: TypedSceneRef) -> Result<Scene, Seq<char>> {
    match scene {
        TypedSceneRef::Menu => Ok(Scene::Menu),
        TypedSceneRef::Loading => Ok(Scene::Loading),
        TypedSceneRef::Dialogue(id) => Ok(Scene::Dialogue(dialogue_scene_spec(id))),
        TypedSceneRef::Dilemma(id) => match dilemma_scene_spec(id) {
            Ok(d) => Ok(Scene::Dilemma(d)),
            Err(m) => Err(m),
        },
        TypedSceneRef::Ending(id) => Ok(Scene::Ending(ending_scene_spec(id))),
    }
}

/// The view of a mapping result: the scene, or what the error reports.
pub open spec fn scene_result_view(r: Result<Scene, FlowEvalError>) -> Result<Scene, FlowEvalErrorView> {
    match r {
        Ok(s) => Ok(s),
        Err(e) => Err(e@),
    }
}

/// The message of a route-mapping error.
pub open spec fn mapping_error(r: Result<Scene, Seq<char>>) -> Result<Scene, FlowEvalErrorView> {
    match r {
        Ok(s) => Ok(s),
        Err(m) => Err(FlowEvalErrorView::RouteMapping(m)),
    }
}

fn stage_error(path: &str, stage: u8) -> (e: FlowEvalError)
    ensures
        e@ == FlowEvalErrorView::RouteMapping(stage_out_of_range(path@, stage)),
{
    let mut message = string_of(path);
    push_str(&mut message, " stage ");
    push_decimal(&mut message, stage as usize);
    push_str(&mut message, " is out of range");
    FlowEvalError::RouteMapping(message)
}

/// The scene that plays for `scene`; a path stage that the game has no dilemma for is an error.
pub fn runtime_scene_from_typed_scene_ref(scene: TypedSceneRef) -> (r: Result<Scene, FlowEvalError>)
    ensures
        scene_result_view(r) == mapping_error(runtime_scene_spec(scene)),
{
    match scene {
        TypedSceneRef::Menu => Ok(Scene::Menu),
        TypedSceneRef::Loading => Ok(Scene::Loading),
        TypedSceneRef::Dialogue(id) => {
            let dialogue = match id {
            DialogueSceneId::Lab1aFail => DialogueScene::Lab1a(Lab1aDialogue::Fail),
            DialogueSceneId::Lab1aPassIndecisive => DialogueScene::Lab1a(Lab1aDialogue::PassIndecisive),
            DialogueSceneId::Lab1aFailVeryIndecisive => DialogueScene::Lab1a(Lab1aDialogue::FailVeryIndecisive),
            DialogueSceneId::Lab1aPass => DialogueScene::Lab1a(Lab1aDialogue::Pass),
            DialogueSceneId::Lab1aPassSlow => DialogueScene::Lab1a(Lab1aDialogue::PassSlow),
            DialogueSceneId::Lab1bIntro => DialogueScene::Lab1b(Lab1bDialogue::DilemmaIntro),
            DialogueSceneId::Lab2aFailIndecisive => DialogueScene::Lab2a(Lab2aDialogue::FailIndecisive),
            DialogueSceneId::Lab2aFail => DialogueScene::Lab2a(Lab2aDialogue::Fail),
            DialogueSceneId::Lab2aPassSlowAgain => DialogueScene::Lab2a(Lab2aDialogue::PassSlowAgain),
            DialogueSceneId::Lab2aPassSlow => DialogueScene::Lab2a(Lab2aDialogue::PassSlow),
            DialogueSceneId::Lab2aPass => DialogueScene::Lab2a(Lab2aDialogue::Pass),
            DialogueSceneId::Lab2bIntro => DialogueScene::Lab2b(Lab2bDialogue::Intro),
            DialogueSceneId::Lab3aFailIndecisive => DialogueScene::Lab3a(Lab3aDialogue::FailIndecisive),
            DialogueSceneId::Lab3aFailInaction => DialogueScene::Lab3a(Lab3aDialogue::FailInaction),
            DialogueSceneId::Lab3aPassUtilitarian => DialogueScene::Lab3a(Lab3aDialogue::PassUtilitarian),
            DialogueSceneId::PathDeontologicalFailIndecisive => DialogueScene::Lab3a(Lab3aDialogue::DeontologicalFailIndecisive),
            DialogueSceneId::Lab3bIntro => DialogueScene::Lab3b(Lab3bDialogue::Intro),
            DialogueSceneId::Lab4Outro => DialogueScene::Lab4(Lab4Dialogue::Outro),
            DialogueSceneId::PathPsychopathTryAgainFail => DialogueScene::PathPsychopath(PsychopathDialogue::TryAgainFail),
            DialogueSceneId::PathPsychopathTryAgainPass => DialogueScene::PathPsychopath(PsychopathDialogue::TryAgainPass),
            DialogueSceneId::PathPsychopathOne => DialogueScene::PathPsychopath(PsychopathDialogue::One),
            DialogueSceneId::PathPsychopathTwo => DialogueScene::PathPsychopath(PsychopathDialogue::Two),
            DialogueSceneId::PathPsychopathBabyOne => DialogueScene::PathPsychopath(PsychopathDialogue::BabyOne),
            DialogueSceneId::PathPsychopathBaby => DialogueScene::PathPsychopath(PsychopathDialogue::Baby),
            DialogueSceneId::PathPsychopathNuns => DialogueScene::PathPsychopath(PsychopathDialogue::Nuns),
            DialogueSceneId::PathPsychopathFastRepentant => DialogueScene::PathPsychopath(PsychopathDialogue::FastRepentant),
            DialogueSceneId::PathPsychopathFast => DialogueScene::PathPsychopath(PsychopathDialogue::Fast),
            DialogueSceneId::PathPsychopathSlow => DialogueScene::PathPsychopath(PsychopathDialogue::Slow),
            DialogueSceneId::PathPsychopathCityMaxDeath => DialogueScene::PathPsychopath(PsychopathDialogue::CityMaxDeath),
            DialogueSceneId::PathPsychopathCityRepentant => DialogueScene::PathPsychopath(PsychopathDialogue::CityRepentant),
            DialogueSceneId::PathPsychopathCity => DialogueScene::PathPsychopath(PsychopathDialogue::City),
            DialogueSceneId::PathPsychopathPainMaxPain => DialogueScene::PathPsychopath(PsychopathDialogue::PainMaxPain),
            DialogueSceneId::PathPsychopathPainRepentant => DialogueScene::PathPsychopath(PsychopathDialogue::PainRepentant),
            DialogueSceneId::PathPsychopathPain => DialogueScene::PathPsychopath(PsychopathDialogue::Pain),
                DialogueSceneId::PathInaction { stage, outcome } =>
                    DialogueScene::path_inaction(stage as usize, path_outcome_from_id(outcome)),
                DialogueSceneId::PathDeontological { stage, outcome } =>
                    DialogueScene::path_deontological(stage as usize, path_outcome_from_id(outcome)),
                DialogueSceneId::PathUtilitarian { stage, outcome } =>
                    DialogueScene::path_utilitarian(stage as usize, path_outcome_from_id(outcome)),
            };
            Ok(Scene::Dialogue(dialogue))
        },
        TypedSceneRef::Dilemma(id) => {
            let dilemma = match id {
                DilemmaSceneId::Lab0IncompetentBandit => DilemmaScene::Lab0(Lab0Dilemma::IncompetentBandit),
                DilemmaSceneId::Lab1NearSightedBandit => DilemmaScene::Lab1(Lab1Dilemma::NearSightedBandit),
                DilemmaSceneId::Lab2TheTrolleyProblem => DilemmaScene::Lab2(Lab2Dilemma::TheTrolleyProblem),
                DilemmaSceneId::Lab3AsleepAtTheJob => DilemmaScene::Lab3(Lab3Dilemma::AsleepAtTheJob),
                DilemmaSceneId::Lab4RandomDeaths => DilemmaScene::Lab4(Lab4Dilemma::RandomDeaths),
                DilemmaSceneId::PathInaction { stage } => match DilemmaScene::path_inaction(stage as usize) {
                    Some(d) => d,
                    None => return Err(stage_error("path_inaction", stage)),
                },
                DilemmaSceneId::PathPsychopath { stage } => match DilemmaScene::path_psychopath(stage as usize) {
                    Some(d) => d,
                    None => return Err(stage_error("path_psychopath", stage)),
                },
                DilemmaSceneId::PathDeontological { stage } => match DilemmaScene::path_deontological(stage as usize) {
                    Some(d) => d,
                    None => return Err(stage_error("path_deontological", stage)),
                },
                DilemmaSceneId::PathUtilitarian { stage } => match DilemmaScene::path_utilitarian(stage as usize) {
                    Some(d) => d,
                    None => return Err(stage_error("path_utilitarian", stage)),
                },
                DilemmaSceneId::DayPersonal { stage } => match DilemmaScene::day_personal(stage as usize) {
                    Some(d) => d,
                    None => return Err(stage_error("day_personal", stage)),
                },
            };
            Ok(Scene::Dilemma(dilemma))
        },
        TypedSceneRef::Ending(id) => {
            let ending = match id {
            EndingSceneId::IdioticPsychopath => EndingScene::IdioticPsychopath,
            EndingSceneId::ImpatientPsychopath => EndingScene::ImpatientPsychopath,
            EndingSceneId::Leverophile => EndingScene::Leverophile,
            EndingSceneId::ConfusedDeontologist => EndingScene::ConfusedDeontologist,
            EndingSceneId::SelectiveDeontologist => EndingScene::SelectiveDeontologist,
            EndingSceneId::TrueDeontologist => EndingScene::TrueDeontologist,
            EndingSceneId::TrueNeutral => EndingScene::TrueNeutral,
            EndingSceneId::DayPersonalAllMenKilled => EndingScene::DayPersonalAllMenKilled,
            EndingSceneId::DayPersonalAllWomenKilled => EndingScene::DayPersonalAllWomenKilled,
            EndingSceneId::DayPersonalIgnoredBomb => EndingScene::DayPersonalIgnoredBomb,
            EndingSceneId::DayPersonalDidNothing => EndingScene::DayPersonalDidNothing,
            };
            Ok(Scene::Ending(ending))
        },
    }
}

/// The graph identifier of the scene being played: only the menu, loading and the dilemmas
/// have one (a path stage must fit in a byte).
pub open spec fn typed_for_runtime_spec(scene: Scene) -> Option<TypedSceneRef> {
    match scene {
        Scene::Menu => Some(TypedSceneRef::Menu),
        Scene::Loading => Some(TypedSceneRef::Loading),
        Scene::Dialogue(_) => None,
        Scene::Ending(_) => None,
        Scene::Dilemma(d) => match d {
            DilemmaScene::Lab0(_) => Some(TypedSceneRef::Dilemma(DilemmaSceneId::Lab0IncompetentBandit)),
            DilemmaScene::Lab1(_) => Some(TypedSceneRef::Dilemma(DilemmaSceneId::Lab1NearSightedBandit)),
            DilemmaScene::Lab2(_) => Some(TypedSceneRef::Dilemma(DilemmaSceneId::Lab2TheTrolleyProblem)),
            DilemmaScene::Lab3(_) => Some(TypedSceneRef::Dilemma(DilemmaSceneId::Lab3AsleepAtTheJob)),
            DilemmaScene::Lab4(_) => Some(TypedSceneRef::Dilemma(DilemmaSceneId::Lab4RandomDeaths)),
            DilemmaScene::PathInaction(_, stage) => if stage <= 255 {
                Some(TypedSceneRef::Dilemma(DilemmaSceneId::PathInaction { stage: stage as u8 }))
            } else {
                None
            },
            DilemmaScene::PathDeontological(_, stage) => if stage <= 255 {
                Some(TypedSceneRef::Dilemma(DilemmaSceneId::PathDeontological { stage: stage as u8 }))
            } else {
                None
            },
            DilemmaScene::PathUtilitarian(_, stage) => if stage <= 255 {
                Some(TypedSceneRef::Dilemma(DilemmaSceneId::PathUtilitarian { stage: stage as u8 }))
            } else {
                None
            },
            DilemmaScene::PathPsychopath(stage) => if stage <= 255 {
                Some(TypedSceneRef::Dilemma(DilemmaSceneId::PathPsychopath { stage: stage as u8 }))
            } else {
                None
            },
            DilemmaScene::DayPersonal(stage) => if stage <= 255 {
                Some(TypedSceneRef::Dilemma(DilemmaSceneId::DayPersonal { stage: stage as u8 }))
            } else {
                None
            },
        },
    }
}

pub fn typed_scene_ref_for_runtime_scene(scene: Scene) -> (r: Option<TypedSceneRef>)
    ensures
        r == typed_for_runtime_spec(scene),
{
    match scene {
        Scene::Menu => Some(TypedSceneRef::Menu),
        Scene::Loading => Some(TypedSceneRef::Loading),
        Scene::Dialogue(_) => None,
        Scene::Ending(_) => None,
        Scene::Dilemma(dilemma) => {
            let id = match dilemma {
                DilemmaScene::Lab0(_) => DilemmaSceneId::Lab0IncompetentBandit,
                DilemmaScene::Lab1(_) => DilemmaSceneId::Lab1NearSightedBandit,
                DilemmaScene::Lab2(_) => DilemmaSceneId::Lab2TheTrolleyProblem,
                DilemmaScene::Lab3(_) => DilemmaSceneId::Lab3AsleepAtTheJob,
                DilemmaScene::Lab4(_) => DilemmaSceneId::Lab4RandomDeaths,
                DilemmaScene::PathInaction(_, stage) => {
                    if stage > 255 {
                        return None;
                    }
                    DilemmaSceneId::PathInaction { stage: stage as u8 }
                },
                DilemmaScene::PathDeontological(_, stage) => {
                    if stage > 255 {
                        return None;
                    }
                    DilemmaSceneId::PathDeontological { stage: stage as u8 }
                },
                DilemmaScene::PathUtilitarian(_, stage) => {
                    if stage > 255 {
                        return None;
                    }
                    DilemmaSceneId::PathUtilitarian { stage: stage as u8 }
                },
                DilemmaScene::PathPsychopath(stage) => {
                    if stage > 255 {
                        return None;
                    }
                    DilemmaSceneId::PathPsychopath { stage: stage as u8 }
                },
                DilemmaScene::DayPersonal(stage) => {
                    if stage > 255 {
                        return None;
                    }
                    DilemmaSceneId::DayPersonal { stage: stage as u8 }
                },
            };
            Some(TypedSceneRef::Dilemma(id))
        },
    }
}

/// Whether `route` leaves from the scene `target`.
pub open spec fn route_leaves_from(route: RouteDefinition, target: TypedSceneRef) -> bool {
    typed_scene_ref_from(route.from@) == Ok::<TypedSceneRef, crate::ids::SceneIdParseErrorView>(target)
}

/// The first of `routes` that leaves from `target`.
pub open spec fn route_for(routes: Seq<RouteDefinition>, target: TypedSceneRef) -> Option<RouteDefinition>
    decreases routes.len(),
{
    if routes.len() == 0 {
        None
    } else if route_leaves_from(routes[0], target) {
        Some(routes[0])
    } else {
        route_for(routes.drop_first(), target)
    }
}

/// The option chosen in a dilemma that ended with the lever at `result`.
pub open spec fn selected_option_of(result: Option<LeverState>) -> Option<usize> {
    match result {
        Some(state) => lever_index(state),
        None => None,
    }
}

/// What the graph's conditions read after the dilemma `latest`, with the campaign totals of
/// `stats` and `earlier` the dilemmas played before it, oldest first (so the most recent of
/// them comes first among the previous ones).
pub open spec fn context_with(latest: DilemmaStats, stats: GameStats, earlier: Seq<DilemmaStats>) -> FlowEvalContextView {
    let history = earlier;
    let n = history.len();
    FlowEvalContextView {
        num_fatalities: latest.num_fatalities,
        num_decisions: latest.num_decisions,
        total_decisions: stats.total_decisions,
        selected_option: selected_option_of(latest.result),
        duration_remaining_at_last_decision_ms: latest.duration_remaining_at_last_decision_ms,
        overall_avg_time_remaining_ms: stats.overall_avg_time_remaining_ms,
        previous_selected_options: Seq::new(n, |i: int| selected_option_of(history[n - 1 - i].result)),
        previous_num_decisions: Seq::new(n, |i: int| history[n - 1 - i].num_decisions),
    }
}

/// What the graph's conditions read after the dilemma `latest`, with `stats` holding the
/// dilemmas before it.
pub open spec fn context_spec(latest: DilemmaStats, stats: GameStats) -> FlowEvalContextView {
    context_with(latest, stats, stats.dilemma_stats@)
}

/// The scenes that the first `k` references name, or the message of the first that fails.
pub open spec fn map_resolved(refs: Seq<SceneRef>, k: nat) -> Result<Seq<Scene>, Seq<char>>
    decreases k,
{
    if k == 0 {
        Ok(Seq::empty())
    } else {
        match map_resolved(refs, (k - 1) as nat) {
            Err(m) => Err(m),
            Ok(prev) => match typed_scene_ref_from(refs[k - 1]@) {
                Err(e) => Err("invalid scene id in resolved route: "@ + parse_error_message(e)),
                Ok(t) => match runtime_scene_spec(t) {
                    Err(m) => Err(m),
                    Ok(scene) => Ok(prev.push(scene)),
                },
            },
        }
    }
}

proof fn lemma_map_resolved_err_sticks(refs: Seq<SceneRef>, j: nat, k: nat)
    requires
        j <= k,
        map_resolved(refs, j) is Err,
    ensures
        map_resolved(refs, k) == map_resolved(refs, j),
    decreases k - j,
{
    if j < k {
        lemma_map_resolved_err_sticks(refs, j, (k - 1) as nat);
    }
}

/// What follows `scene` in `graph`: nothing when the scene has no graph identifier or no route;
/// else the scenes the route resolves to in the context of `latest`, the totals of `stats` and
/// the earlier dilemmas `earlier`, or the first mapping error.
pub open spec fn evaluate_with_earlier_spec(
    graph: SceneProgressionGraph,
    scene: Scene,
    latest: DilemmaStats,
    stats: GameStats,
    earlier: Seq<DilemmaStats>,
) -> Result<Option<Seq<Scene>>, FlowEvalErrorView> {
    match typed_for_runtime_spec(scene) {
        None => Ok(None),
        Some(target) => match route_for(graph.routes@, target) {
            None => Ok(None),
            Some(route) => {
                let refs = resolved_scenes(route, context_with(latest, stats, earlier));
                match map_resolved(refs, refs.len()) {
                    Ok(scenes) => Ok(Some(scenes)),
                    Err(m) => Err(FlowEvalErrorView::RouteMapping(m)),
                }
            },
        },
    }
}

/// What follows `scene` in `graph`, with `stats` holding the dilemmas before `latest`.
pub open spec fn evaluate_spec(
    graph: SceneProgressionGraph,
    scene: Scene,
    latest: DilemmaStats,
    stats: GameStats,
) -> Result<Option<Seq<Scene>>, FlowEvalErrorView> {
    evaluate_with_earlier_spec(graph, scene, latest, stats, stats.dilemma_stats@)
}

/// The view of an evaluation result.
pub open spec fn eval_result_view(r: Result<Option<Vec<Scene>>, FlowEvalError>) -> Result<Option<Seq<Scene>>, FlowEvalErrorView> {
    match r {
        Ok(Some(v)) => Ok(Some(v@)),
        Ok(None) => Ok(None),
        Err(e) => Err(e@),
    }
}

/// Builds what the graph's conditions read after `latest`, with `stats` holding the dilemmas
/// before it.
pub fn build_context(latest: &DilemmaStats, stats: &GameStats) -> (ctx: FlowEvalContext)
    ensures
        ctx@ == context_spec(*latest, *stats),
{
    build_context_with(latest, stats, stats.dilemma_stats.as_slice())
}

/// Builds what the graph's conditions read after `latest`, with the totals of `stats` and the
/// earlier dilemmas `earlier`, oldest first.
pub fn build_context_with(latest: &DilemmaStats, stats: &GameStats, earlier: &[DilemmaStats]) -> (ctx: FlowEvalContext)
    ensures
        ctx@ == context_with(*latest, *stats, earlier@),
{
    let n = earlier.len();
    let mut previous_selected_options: Vec<Option<usize>> = Vec::new();
    let mut previous_num_decisions: Vec<usize> = Vec::new();
    let ghost history = earlier@;
    let mut i: usize = 0;
    while i < n
        invariant
            n == history.len(),
            history == earlier@,
            i <= n,
            previous_selected_options@ =~= Seq::new(i as nat, |j: int| selected_option_of(history[n - 1 - j].result)),
            previous_num_decisions@ =~= Seq::new(i as nat, |j: int| history[n - 1 - j].num_decisions),
        decreases n - i,
    {
        let before = &earlier[n - 1 - i];
        let selected = match before.result {
            Some(state) => state.to_int(),
            None => None,
        };
        previous_selected_options.push(selected);
        previous_num_decisions.push(before.num_decisions);
        i = i + 1;
    }
    let selected_option = match latest.result {
        Some(state) => state.to_int(),
        None => None,
    };
    FlowEvalContext {
        num_fatalities: latest.num_fatalities,
        num_decisions: latest.num_decisions,
        total_decisions: stats.total_decisions,
        selected_option,
        duration_remaining_at_last_decision_ms: latest.duration_remaining_at_last_decision_ms,
        overall_avg_time_remaining_ms: stats.overall_avg_time_remaining_ms,
        previous_selected_options,
        previous_num_decisions,
    }
}

/// The index of the first route that leaves from `target`.
fn find_route_index(routes: &Vec<RouteDefinition>, target: TypedSceneRef) -> (r: Option<usize>)
    ensures
        match r {
            Some(i) => i < routes@.len() && route_for(routes@, target) == Some(routes@[i as int]),
            None => route_for(routes@, target) is None,
        },
{
    let mut k: usize = 0;
    assert(routes@.skip(0) =~= routes@);
    while k < routes.len()
        invariant
            k <= routes@.len(),
            route_for(routes@.skip(k as int), target) == route_for(routes@, target),
        decreases routes.len() - k,
    {
        assert(routes@.skip(k as int)[0] == routes@[k as int]);
        let leaves = match TypedSceneRef::try_from(&routes[k].from) {
            Ok(route_from) => route_from == target,
            Err(_) => false,
        };
        if leaves {
            return Some(k);
        }
        assert(routes@.skip(k as int).drop_first() =~= routes@.skip(k + 1));
        k = k + 1;
    }
    assert(routes@.skip(k as int).len() == 0);
    None
}

/// The scenes that follow `current_scene` in `graph`, with `stats` holding the dilemmas
/// before `latest`.
pub fn evaluate_with_graph(
    graph: &SceneProgressionGraph,
    current_scene: Scene,
    latest: &DilemmaStats,
    stats: &GameStats,
) -> (r: Result<Option<Vec<Scene>>, FlowEvalError>)
    ensures
        eval_result_view(r) == evaluate_spec(*graph, current_scene, *latest, *stats),
{
    evaluate_with_earlier(graph, current_scene, latest, stats, stats.dilemma_stats.as_slice())
}

/// The scenes that follow `current_scene` in `graph`, with the totals of `stats` and the
/// earlier dilemmas `earlier`, oldest first.
pub fn evaluate_with_earlier(
    graph: &SceneProgressionGraph,
    current_scene: Scene,
    latest: &DilemmaStats,
    stats: &GameStats,
    earlier: &[DilemmaStats],
) -> (r: Result<Option<Vec<Scene>>, FlowEvalError>)
    ensures
        eval_result_view(r) == evaluate_with_earlier_spec(*graph, current_scene, *latest, *stats, earlier@),
{
    let from_scene_id = match typed_scene_ref_for_runtime_scene(current_scene) {
        Some(id) => id,
        None => return Ok(None),
    };
    let index = match find_route_index(&graph.routes, from_scene_id) {
        Some(index) => index,
        None => return Ok(None),
    };
    let route = &graph.routes[index];
    let context = build_context_with(latest, stats, earlier);
    let refs = route.resolve_then(&context);
    let mut resolved: Vec<Scene> = Vec::new();
    let mut i: usize = 0;
    let ghost expected = evaluate_with_earlier_spec(*graph, current_scene, *latest, *stats, earlier@);
    assert(expected == match map_resolved(refs@, refs@.len()) {
        Ok(scenes) => Ok::<Option<Seq<Scene>>, FlowEvalErrorView>(Some(scenes)),
        Err(m) => Err(FlowEvalErrorView::RouteMapping(m)),
    });
    while i < refs.len()
        invariant
            i <= refs@.len(),
            expected == evaluate_with_earlier_spec(*graph, current_scene, *latest, *stats, earlier@),
            expected == match map_resolved(refs@, refs@.len()) {
                Ok(scenes) => Ok::<Option<Seq<Scene>>, FlowEvalErrorView>(Some(scenes)),
                Err(m) => Err(FlowEvalErrorView::RouteMapping(m)),
            },
            map_resolved(refs@, i as nat) == Ok::<Seq<Scene>, Seq<char>>(resolved@),
        decreases refs.len() - i,
    {
        let typed_scene = match TypedSceneRef::try_from(&refs[i]) {
            Ok(t) => t,
            Err(error) => {
                let mut message = string_of("invalid scene id in resolved route: ");
                let detail = error.to_string();
                push_str(&mut message, detail.as_str());
                assert(map_resolved(refs@, (i + 1) as nat) == Err::<Seq<Scene>, Seq<char>>(message@));
                proof {
                    lemma_map_resolved_err_sticks(refs@, (i + 1) as nat, refs@.len());
                }
                return Err(FlowEvalError::RouteMapping(message));
            },
        };
        let scene = match runtime_scene_from_typed_scene_ref(typed_scene) {
            Ok(scene) => scene,
            Err(error) => {
                assert(map_resolved(refs@, (i + 1) as nat) is Err);
                proof {
                    lemma_map_resolved_err_sticks(refs@, (i + 1) as nat, refs@.len());
                }
                return Err(error);
            },
        };
        resolved.push(scene);
        i = i + 1;
    }
    Ok(Some(resolved))
}

/// The scenes that follow `current_scene`, read from the campaign graph once it was loaded
/// (`graph` holds the graph or why it could not be had).
pub fn evaluate_next_scenes_from_graph(
    graph: &Result<SceneProgressionGraph, FlowEvalError>,
    current_scene: Scene,
    latest: &DilemmaStats,
    stats: &GameStats,
) -> (r: Result<Option<Vec<Scene>>, FlowEvalError>)
    ensures
        match graph {
            Ok(g) => eval_result_view(r) == evaluate_spec(*g, current_scene, *latest, *stats),
            Err(e) => r matches Err(re) && re@ == e@,
        },
{
    match graph {
        Ok(g) => evaluate_with_graph(g, current_scene, latest, stats),
        Err(e) => Err(e.duplicate()),
    }
}

/// The scenes that follow the dilemma just played, with `stats` holding the dilemmas before
/// `latest`; when the graph cannot be had or followed, play returns to the menu.
pub fn next_scenes_for_current_dilemma(
    graph: &Result<SceneProgressionGraph, FlowEvalError>,
    current_scene: Scene,
    latest: &DilemmaStats,
    stats: &GameStats,
) -> (r: Option<Vec<Scene>>)
    ensures
        match graph {
            Ok(g) => match evaluate_spec(*g, current_scene, *latest, *stats) {
                Ok(Some(scenes)) => r matches Some(v) && v@ == scenes,
                Ok(None) => r is None,
                Err(_) => r matches Some(v) && v@ == seq![Scene::Menu],
            },
            Err(_) => r matches Some(v) && v@ == seq![Scene::Menu],
        },
{
    next_scenes_with_earlier(graph, current_scene, latest, stats, stats.dilemma_stats.as_slice())
}

/// The scenes that follow the dilemma `latest`, with the totals of `stats` and the earlier
/// dilemmas `earlier`, oldest first; when the graph cannot be had or followed, play returns to
/// the menu.
pub fn next_scenes_with_earlier(
    graph: &Result<SceneProgressionGraph, FlowEvalError>,
    current_scene: Scene,
    latest: &DilemmaStats,
    stats: &GameStats,
    earlier: &[DilemmaStats],
) -> (r: Option<Vec<Scene>>)
    ensures
        match graph {
            Ok(g) => match evaluate_with_earlier_spec(*g, current_scene, *latest, *stats, earlier@) {
                Ok(Some(scenes)) => r matches Some(v) && v@ == scenes,
                Ok(None) => r is None,
                Err(_) => r matches Some(v) && v@ == seq![Scene::Menu],
            },
            Err(_) => r matches Some(v) && v@ == seq![Scene::Menu],
        },
{
    let mut menu: Vec<Scene> = Vec::new();
    menu.push(Scene::Menu);
    assert(menu@ =~= seq![Scene::Menu]);
    match graph {
        Ok(g) => match evaluate_with_earlier(g, current_scene, latest, stats, earlier) {
            Ok(next_scenes) => next_scenes,
            Err(_) => Some(menu),
        },
        Err(_) => Some(menu),
    }
}

/// A scene that the graph names as a route's source maps to a scene that maps back to the
/// same identifier: the menu, loading, and every dilemma the game has.
pub proof fn lemma_route_sources_round_trip(id: TypedSceneRef)
    requires
        !(id is Dialogue),
        !(id is Ending),
        runtime_scene_spec(id) is Ok,
    ensures
        typed_for_runtime_spec(runtime_scene_spec(id)->Ok_0) == Some(id),
{
}

/// The identifier that content files and the campaign graph give each ending.
pub open spec fn ending_identifier(ending: EndingScene) -> Seq<char> {
    match ending {
        EndingScene::IdioticPsychopath => "idiotic_psychopath"@,
        EndingScene::ImpatientPsychopath => "impatient_psychopath"@,
        EndingScene::Leverophile => "leverophile"@,
        EndingScene::ConfusedDeontologist => "confused_deontologist"@,
        EndingScene::SelectiveDeontologist => "selective_deontologist"@,
        EndingScene::TrueDeontologist => "true_deontologist"@,
        EndingScene::TrueNeutral => "true_neutral"@,
        EndingScene::DayPersonalAllMenKilled => "day_personal_all_men_killed"@,
        EndingScene::DayPersonalAllWomenKilled => "day_personal_all_women_killed"@,
        EndingScene::DayPersonalIgnoredBomb => "day_personal_ignored_bomb"@,
        EndingScene::DayPersonalDidNothing => "day_personal_did_nothing"@,
    }
}

/// An ending that the campaign graph names plays as the ending of that very name: whatever
/// identifier parses as an ending, the scene it maps to is the ending with that identifier.
pub proof fn lemma_named_ending_plays_itself(name: Seq<char>)
    requires
        ending_id_from(name) is Some,
    ensures
        runtime_scene_spec(TypedSceneRef::Ending(ending_id_from(name)->0)) matches Ok(Scene::Ending(ending))
            && ending_identifier(ending) == name,
{
}

/// Every ending can be named in the campaign graph: its identifier parses as an ending id,
/// and that id plays as the ending itself.
pub proof fn lemma_every_ending_can_be_named(ending: EndingScene)
    ensures
        ending_id_from(ending_identifier(ending)) matches Some(id)
            && runtime_scene_spec(TypedSceneRef::Ending(id)) == Ok::<Scene, Seq<char>>(Scene::Ending(ending)),
{
    // Identifiers of different lengths differ; those of equal length differ at the
    // character given below.
    reveal_strlit("idiotic_psychopath");
    assert("idiotic_psychopath"@.len() == 18);
    reveal_strlit("impatient_psychopath");
    assert("impatient_psychopath"@.len() == 20);
    reveal_strlit("leverophile");
    assert("leverophile"@.len() == 11);
    reveal_strlit("confused_deontologist");
    assert("confused_deontologist"@.len() == 21);
    reveal_strlit("selective_deontologist");
    assert("selective_deontologist"@.len() == 22);
    reveal_strlit("true_deontologist");
    assert("true_deontologist"@.len() == 17);
    reveal_strlit("true_neutral");
    assert("true_neutral"@.len() == 12);
    reveal_strlit("day_personal_all_men_killed");
    assert("day_personal_all_men_killed"@.len() == 27);
    reveal_strlit("day_personal_all_women_killed");
    assert("day_personal_all_women_killed"@.len() == 29);
    reveal_strlit("day_personal_ignored_bomb");
    assert("day_personal_ignored_bomb"@.len() == 25);
    reveal_strlit("day_personal_did_nothing");
    assert("day_personal_did_nothing"@.len() == 24);
    match ending {

        _ => {},
    }
}

/// Distinct ending identifiers map to distinct endings.
pub proof fn lemma_distinct_endings_stay_distinct(a: EndingSceneId, b: EndingSceneId)
    requires
        runtime_scene_spec(TypedSceneRef::Ending(a)) == runtime_scene_spec(TypedSceneRef::Ending(b)),
    ensures
        a == b,
{
}

} // verus!

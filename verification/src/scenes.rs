//! The scenes of the game and the queue of scenes still to play.
use std::collections::VecDeque;

use vstd::prelude::*;

verus! {

#[derive(Debug, Clone, Copy, PartialEq, Eq, Hash, Structural)]
pub enum PathOutcome {
    Pass,
    Fail,
}

#[derive(Debug, Clone, Copy, PartialEq, Eq, Hash, Structural)]
pub enum Lab0Dialogue {
    Intro,
}

#[derive(Debug, Clone, Copy, PartialEq, Eq, Hash, Structural)]
pub enum Lab1aDialogue {
    Fail,
    PassIndecisive,
    FailVeryIndecisive,
    Pass,
    PassSlow,
}

#[derive(Debug, Clone, Copy, PartialEq, Eq, Hash, Structural)]
pub enum Lab1bDialogue {
    DilemmaIntro,
}

/// A dialogue of the inaction path: its stage (0 to 6) and outcome.
#[derive(Debug, Clone, Copy, PartialEq, Eq, Hash, Structural)]
pub struct InactionPath {
    number: usize,
    outcome: PathOutcome,
}

impl InactionPath {
    /// A stage beyond the last (6) is taken as the last.
    /// The path dialogue of stage `number` (brought into range) and `outcome`.
    pub closed spec fn spec_new(number: usize, outcome: PathOutcome) -> InactionPath {
        InactionPath { number: if number <= 6 { number } else { 6 }, outcome }
    }

    pub fn new(number: usize, outcome: PathOutcome) -> (r: InactionPath)
        ensures
            r == InactionPath::spec_new(number, outcome),
            r.number() == if number <= 6 { number } else { 6 },
            r.outcome() == outcome,
    {
        let normalized_number = if number < 6 { number } else { 6 };
        InactionPath { number: normalized_number, outcome }
    }

    pub closed spec fn number(self) -> usize {
        self.number
    }

    pub closed spec fn outcome(self) -> PathOutcome {
        self.outcome
    }

    pub fn get_number(&self) -> (r: usize)
        ensures
            r == self.number(),
    {
        self.number
    }
}

#[derive(Debug, Clone, Copy, PartialEq, Eq, Hash, Structural)]
pub enum Lab2aDialogue {
    FailIndecisive,
    Fail,
    PassSlowAgain,
    PassSlow,
    Pass,
    PathInaction(InactionPath),
}

#[derive(Debug, Clone, Copy, PartialEq, Eq, Hash, Structural)]
pub enum Lab2bDialogue {
    Intro,
}

/// A dialogue of the deontological path: its stage (0 to 3) and outcome.
#[derive(Debug, Clone, Copy, PartialEq, Eq, Hash, Structural)]
pub struct DeontologicalPath {
    number: usize,
    outcome: PathOutcome,
}

impl DeontologicalPath {
    /// A stage beyond the last (3) is taken as the last.
    /// The path dialogue of stage `number` (brought into range) and `outcome`.
    pub closed spec fn spec_new(number: usize, outcome: PathOutcome) -> DeontologicalPath {
        DeontologicalPath { number: if number <= 3 { number } else { 3 }, outcome }
    }

    pub fn new(number: usize, outcome: PathOutcome) -> (r: DeontologicalPath)
        ensures
            r == DeontologicalPath::spec_new(number, outcome),
            r.number() == if number <= 3 { number } else { 3 },
            r.outcome() == outcome,
    {
        let normalized_number = if number < 3 { number } else { 3 };
        DeontologicalPath { number: normalized_number, outcome }
    }

    pub closed spec fn number(self) -> usize {
        self.number
    }

    pub closed spec fn outcome(self) -> PathOutcome {
        self.outcome
    }
}

#[derive(Debug, Clone, Copy, PartialEq, Eq, Hash, Structural)]
pub enum Lab3aDialogue {
    FailIndecisive,
    FailInaction,
    PassUtilitarian,
    DeontologicalFailIndecisive,
    DeontologicalPath(DeontologicalPath),
}

#[derive(Debug, Clone, Copy, PartialEq, Eq, Hash, Structural)]
pub enum Lab3bDialogue {
    Intro,
}

/// A dialogue of the utilitarian path: its stage (1 to 4) and outcome.
#[derive(Debug, Clone, Copy, PartialEq, Eq, Hash, Structural)]
pub struct UtilitarianPath {
    number: usize,
    outcome: PathOutcome,
}

impl UtilitarianPath {
    /// A stage outside 1 to 4 is taken as the nearest of them.
    /// The path dialogue of stage `number` (brought into range) and `outcome`.
    pub closed spec fn spec_new(number: usize, outcome: PathOutcome) -> UtilitarianPath {
        UtilitarianPath { number: if number < 1 { 1 } else if number > 4 { 4 } else { number }, outcome }
    }

    pub fn new(number: usize, outcome: PathOutcome) -> (r: UtilitarianPath)
        ensures
            r == UtilitarianPath::spec_new(number, outcome),
            r.number() == if number < 1 { 1 } else if number > 4 { 4 } else { number },
            r.outcome() == outcome,
    {
        let normalized_number = if number < 1 { 1 } else if number > 4 { 4 } else { number };
        UtilitarianPath { number: normalized_number, outcome }
    }

    pub closed spec fn number(self) -> usize {
        self.number
    }

    pub closed spec fn outcome(self) -> PathOutcome {
        self.outcome
    }
}

#[derive(Debug, Clone, Copy, PartialEq, Eq, Hash, Structural)]
pub enum Lab4Dialogue {
    UtilitarianPath(UtilitarianPath),
    Outro,
}

#[derive(Debug, Clone, Copy, PartialEq, Eq, Hash, Structural)]
pub enum PsychopathDialogue {
    TryAgainFail,
    TryAgainPass,
    One,
    Two,
    BabyOne,
    Baby,
    Nuns,
    FastRepentant,
    Fast,
    Slow,
    CityMaxDeath,
    CityRepentant,
    City,
    PainMaxPain,
    PainRepentant,
    Pain,
}

#[derive(Debug, Clone, Copy, PartialEq, Eq, Hash, Structural)]
pub enum DialogueScene {
    Lab0(Lab0Dialogue),
    Lab1a(Lab1aDialogue),
    Lab1b(Lab1bDialogue),
    Lab2a(Lab2aDialogue),
    Lab2b(Lab2bDialogue),
    Lab3a(Lab3aDialogue),
    Lab3b(Lab3bDialogue),
    Lab4(Lab4Dialogue),
    PathPsychopath(PsychopathDialogue),
}

impl DialogueScene {
    pub fn path_inaction(number: usize, outcome: PathOutcome) -> (r: DialogueScene)
        ensures
            r == DialogueScene::Lab2a(Lab2aDialogue::PathInaction(InactionPath::spec_new(number, outcome))),
    {
        DialogueScene::Lab2a(Lab2aDialogue::PathInaction(InactionPath::new(number, outcome)))
    }

    pub fn path_deontological(number: usize, outcome: PathOutcome) -> (r: DialogueScene)
        ensures
            r == DialogueScene::Lab3a(Lab3aDialogue::DeontologicalPath(DeontologicalPath::spec_new(number, outcome))),
    {
        DialogueScene::Lab3a(Lab3aDialogue::DeontologicalPath(DeontologicalPath::new(number, outcome)))
    }

    pub fn path_utilitarian(number: usize, outcome: PathOutcome) -> (r: DialogueScene)
        ensures
            r == DialogueScene::Lab4(Lab4Dialogue::UtilitarianPath(UtilitarianPath::spec_new(number, outcome))),
    {
        DialogueScene::Lab4(Lab4Dialogue::UtilitarianPath(UtilitarianPath::new(number, outcome)))
    }
}

#[derive(Debug, Clone, Copy, PartialEq, Eq, Hash, Structural)]
pub enum Lab0Dilemma {
    IncompetentBandit,
}

#[derive(Debug, Clone, Copy, PartialEq, Eq, Hash, Structural)]
pub enum Lab1Dilemma {
    NearSightedBandit,
}

#[derive(Debug, Clone, Copy, PartialEq, Eq, Hash, Structural)]
pub enum Lab2Dilemma {
    TheTrolleyProblem,
}

#[derive(Debug, Clone, Copy, PartialEq, Eq, Hash, Structural)]
pub enum Lab3Dilemma {
    AsleepAtTheJob,
}

#[derive(Debug, Clone, Copy, PartialEq, Eq, Hash, Structural)]
pub enum Lab4Dilemma {
    RandomDeaths,
}

#[derive(Debug, Clone, Copy, PartialEq, Eq, Hash, Structural)]
pub enum DilemmaPathInaction {
    EmptyChoice,
    PlentyOfTime,
    LittleTime,
    FiveOrNothing,
    CancerCure,
    OwnChild,
    You,
}

#[derive(Debug, Clone, Copy, PartialEq, Eq, Hash, Structural)]
pub enum DilemmaPathDeontological {
    TrolleyerProblem,
    TrolleyestProblem,
    TrolleygeddonProblem,
}

#[derive(Debug, Clone, Copy, PartialEq, Eq, Hash, Structural)]
pub enum DilemmaPathUtilitarian {
    OneFifth,
    MarginOfError,
    NegligibleDifference,
}

/// A dilemma scene; the path dilemmas carry their stage.
#[derive(Debug, Clone, Copy, PartialEq, Eq, Hash, Structural)]
pub enum DilemmaScene {
    Lab0(Lab0Dilemma),
    Lab1(Lab1Dilemma),
    PathInaction(DilemmaPathInaction, usize),
    Lab2(Lab2Dilemma),
    Lab3(Lab3Dilemma),
    Lab4(Lab4Dilemma),
    PathDeontological(DilemmaPathDeontological, usize),
    PathUtilitarian(DilemmaPathUtilitarian, usize),
    PathPsychopath(usize),
    DayPersonal(usize),
}

/// The inaction-path dilemma of each stage, 0 to 6.
pub open spec fn path_inaction_spec(stage: int) -> Option<DilemmaScene> {
    if stage == 0 { Some(DilemmaScene::PathInaction(DilemmaPathInaction::EmptyChoice, 0)) }
    else if stage == 1 { Some(DilemmaScene::PathInaction(DilemmaPathInaction::PlentyOfTime, 1)) }
    else if stage == 2 { Some(DilemmaScene::PathInaction(DilemmaPathInaction::LittleTime, 2)) }
    else if stage == 3 { Some(DilemmaScene::PathInaction(DilemmaPathInaction::FiveOrNothing, 3)) }
    else if stage == 4 { Some(DilemmaScene::PathInaction(DilemmaPathInaction::CancerCure, 4)) }
    else if stage == 5 { Some(DilemmaScene::PathInaction(DilemmaPathInaction::OwnChild, 5)) }
    else if stage == 6 { Some(DilemmaScene::PathInaction(DilemmaPathInaction::You, 6)) }
    else { None }
}

/// The deontological-path dilemma of each stage, 0 to 2.
pub open spec fn path_deontological_spec(stage: int) -> Option<DilemmaScene> {
    if stage == 0 { Some(DilemmaScene::PathDeontological(DilemmaPathDeontological::TrolleyerProblem, 0)) }
    else if stage == 1 { Some(DilemmaScene::PathDeontological(DilemmaPathDeontological::TrolleyestProblem, 1)) }
    else if stage == 2 { Some(DilemmaScene::PathDeontological(DilemmaPathDeontological::TrolleygeddonProblem, 2)) }
    else { None }
}

/// The utilitarian-path dilemma of each stage, 0 to 2.
pub open spec fn path_utilitarian_spec(stage: int) -> Option<DilemmaScene> {
    if stage == 0 { Some(DilemmaScene::PathUtilitarian(DilemmaPathUtilitarian::OneFifth, 0)) }
    else if stage == 1 { Some(DilemmaScene::PathUtilitarian(DilemmaPathUtilitarian::MarginOfError, 1)) }
    else if stage == 2 { Some(DilemmaScene::PathUtilitarian(DilemmaPathUtilitarian::NegligibleDifference, 2)) }
    else { None }
}

/// The psychopath-path dilemma of each stage, 0 to 4.
pub open spec fn path_psychopath_spec(stage: int) -> Option<DilemmaScene> {
    if 0 <= stage <= 4 { Some(DilemmaScene::PathPsychopath(stage as usize)) } else { None }
}

/// The personal-day dilemma of each stage, 0 to 7.
pub open spec fn day_personal_spec(stage: int) -> Option<DilemmaScene> {
    if 0 <= stage <= 7 { Some(DilemmaScene::DayPersonal(stage as usize)) } else { None }
}

impl DilemmaScene {
    pub fn path_inaction(stage: usize) -> (r: Option<DilemmaScene>)
        ensures
            r == path_inaction_spec(stage as int),
    {
        match stage {
            0 => Some(DilemmaScene::PathInaction(DilemmaPathInaction::EmptyChoice, 0)),
            1 => Some(DilemmaScene::PathInaction(DilemmaPathInaction::PlentyOfTime, 1)),
            2 => Some(DilemmaScene::PathInaction(DilemmaPathInaction::LittleTime, 2)),
            3 => Some(DilemmaScene::PathInaction(DilemmaPathInaction::FiveOrNothing, 3)),
            4 => Some(DilemmaScene::PathInaction(DilemmaPathInaction::CancerCure, 4)),
            5 => Some(DilemmaScene::PathInaction(DilemmaPathInaction::OwnChild, 5)),
            6 => Some(DilemmaScene::PathInaction(DilemmaPathInaction::You, 6)),
            _ => None,
        }
    }

    pub fn path_deontological(stage: usize) -> (r: Option<DilemmaScene>)
        ensures
            r == path_deontological_spec(stage as int),
    {
        match stage {
            0 => Some(DilemmaScene::PathDeontological(DilemmaPathDeontological::TrolleyerProblem, 0)),
            1 => Some(DilemmaScene::PathDeontological(DilemmaPathDeontological::TrolleyestProblem, 1)),
            2 => Some(DilemmaScene::PathDeontological(DilemmaPathDeontological::TrolleygeddonProblem, 2)),
            _ => None,
        }
    }

    pub fn path_utilitarian(stage: usize) -> (r: Option<DilemmaScene>)
        ensures
            r == path_utilitarian_spec(stage as int),
    {
        match stage {
            0 => Some(DilemmaScene::PathUtilitarian(DilemmaPathUtilitarian::OneFifth, 0)),
            1 => Some(DilemmaScene::PathUtilitarian(DilemmaPathUtilitarian::MarginOfError, 1)),
            2 => Some(DilemmaScene::PathUtilitarian(DilemmaPathUtilitarian::NegligibleDifference, 2)),
            _ => None,
        }
    }

    pub fn path_psychopath(stage: usize) -> (r: Option<DilemmaScene>)
        ensures
            r == path_psychopath_spec(stage as int),
    {
        if stage <= 4 { Some(DilemmaScene::PathPsychopath(stage)) } else { None }
    }

    pub fn day_personal(stage: usize) -> (r: Option<DilemmaScene>)
        ensures
            r == day_personal_spec(stage as int),
    {
        if stage <= 7 { Some(DilemmaScene::DayPersonal(stage)) } else { None }
    }
}

#[derive(Debug, Clone, Copy, PartialEq, Eq, Hash, Structural)]
pub enum EndingScene {
    IdioticPsychopath,
    ImpatientPsychopath,
    Leverophile,
    ConfusedDeontologist,
    SelectiveDeontologist,
    TrueDeontologist,
    TrueNeutral,
    DayPersonalAllMenKilled,
    DayPersonalAllWomenKilled,
    DayPersonalIgnoredBomb,
    DayPersonalDidNothing,
}

#[derive(Debug, Clone, Copy, PartialEq, Eq, Hash, Structural)]
pub enum Scene {
    Menu,
    Loading,
    Dialogue(DialogueScene),
    Dilemma(DilemmaScene),
    Ending(EndingScene),
}

#[derive(Debug, Clone, Copy, PartialEq, Eq, Hash, Structural)]
pub enum SceneFlowMode {
    Campaign,
    SingleLevel,
}

/// The scenes still to play, the scene now playing, and whether the run is a campaign or a
/// single level.
pub struct SceneQueue {
    queue: VecDeque<Scene>,
    current: Scene,
    flow_mode: SceneFlowMode,
}

/// The scenes a fresh campaign starts with: loading, the first dialogue, the first dilemma.
pub open spec fn campaign_start() -> Seq<Scene> {
    seq![
        Scene::Loading,
        Scene::Dialogue(DialogueScene::Lab0(Lab0Dialogue::Intro)),
        Scene::Dilemma(DilemmaScene::Lab0(Lab0Dilemma::IncompetentBandit)),
    ]
}

impl SceneQueue {
    /// The scenes still to play, the next one first.
    pub closed spec fn pending(&self) -> Seq<Scene> {
        self.queue@
    }

    /// The scene now playing.
    pub closed spec fn current(&self) -> Scene {
        self.current
    }

    /// Whether this run is a campaign or a single level.
    pub closed spec fn mode(&self) -> SceneFlowMode {
        self.flow_mode
    }

    /// A fresh campaign: the menu is showing, and loading, the first dialogue and the first
    /// dilemma are to come.
    pub fn new() -> (r: SceneQueue)
        ensures
            r.pending() == campaign_start(),
            r.current() == Scene::Menu,
            r.mode() == SceneFlowMode::Campaign,
    {
        let mut queue: VecDeque<Scene> = VecDeque::new();
        queue.push_back(Scene::Loading);
        queue.push_back(Scene::Dialogue(DialogueScene::Lab0(Lab0Dialogue::Intro)));
        queue.push_back(Scene::Dilemma(DilemmaScene::Lab0(Lab0Dilemma::IncompetentBandit)));
        assert(queue@ =~= campaign_start());
        SceneQueue { queue, current: Scene::Menu, flow_mode: SceneFlowMode::Campaign }
    }

    pub fn current_scene(&self) -> (r: Scene)
        ensures
            r == self.current(),
    {
        self.current
    }

    /// The scene that the next pop will give, if any.
    pub fn next_scene(&self) -> (r: Option<Scene>)
        ensures
            r == (if self.pending().len() > 0 { Some(self.pending()[0]) } else { None }),
    {
        if self.queue.len() > 0 {
            Some(self.queue[0])
        } else {
            None
        }
    }

    /// Starts the campaign over.
    pub fn reset_campaign(&mut self)
        ensures
            final(self).pending() == campaign_start(),
            final(self).current() == Scene::Menu,
            final(self).mode() == SceneFlowMode::Campaign,
    {
        *self = SceneQueue::new();
    }

    /// Moves to the next scene and gives it; an empty queue is left as it is and gives `None`.
    pub fn try_pop(&mut self) -> (r: Option<Scene>)
        ensures
            old(self).pending().len() == 0 ==> {
                &&& r is None
                &&& final(self).pending() == old(self).pending()
                &&& final(self).current() == old(self).current()
                &&& final(self).mode() == old(self).mode()
            },
            old(self).pending().len() > 0 ==> {
                &&& r == Some(old(self).pending()[0])
                &&& final(self).pending() == old(self).pending().drop_first()
                &&& final(self).current() == old(self).pending()[0]
                &&& final(self).mode() == old(self).mode()
            },
    {
        match self.queue.pop_front() {
            Some(scene) => {
                self.current = scene;
                Some(scene)
            },
            None => None,
        }
    }

    /// The same as [`SceneQueue::try_pop`].
    pub fn pop(&mut self) -> (r: Option<Scene>)
        ensures
            old(self).pending().len() == 0 ==> {
                &&& r is None
                &&& final(self).pending() == old(self).pending()
                &&& final(self).current() == old(self).current()
                &&& final(self).mode() == old(self).mode()
            },
            old(self).pending().len() > 0 ==> {
                &&& r == Some(old(self).pending()[0])
                &&& final(self).pending() == old(self).pending().drop_first()
                &&& final(self).current() == old(self).pending()[0]
                &&& final(self).mode() == old(self).mode()
            },
    {
        self.try_pop()
    }

    /// Puts `new_queue` in place of the scenes to come, as a campaign.
    pub fn replace(&mut self, new_queue: Vec<Scene>)
        ensures
            final(self).pending() == new_queue@,
            final(self).current() == old(self).current(),
            final(self).mode() == SceneFlowMode::Campaign,
    {
        let mut queue: VecDeque<Scene> = VecDeque::new();
        let mut i: usize = 0;
        while i < new_queue.len()
            invariant
                i <= new_queue@.len(),
                queue@ == new_queue@.subrange(0, i as int),
            decreases new_queue.len() - i,
        {
            queue.push_back(new_queue[i]);
            assert(new_queue@.subrange(0, i + 1) =~= new_queue@.subrange(0, i as int).push(new_queue@[i as int]));
            i = i + 1;
        }
        assert(new_queue@.subrange(0, new_queue@.len() as int) =~= new_queue@);
        self.queue = queue;
        self.flow_mode = SceneFlowMode::Campaign;
    }

    /// Plays `scene` alone, then returns to the menu.
    pub fn configure_single_scene(&mut self, scene: Scene)
        ensures
            final(self).pending() == seq![scene, Scene::Menu],
            final(self).current() == Scene::Menu,
            final(self).mode() == SceneFlowMode::SingleLevel,
    {
        let mut queue: VecDeque<Scene> = VecDeque::new();
        queue.push_back(scene);
        queue.push_back(Scene::Menu);
        assert(queue@ =~= seq![scene, Scene::Menu]);
        self.queue = queue;
        self.current = Scene::Menu;
        self.flow_mode = SceneFlowMode::SingleLevel;
    }

    /// Starts a campaign at the dilemma `scene`.
    pub fn configure_campaign_from_dilemma(&mut self, scene: DilemmaScene)
        ensures
            final(self).pending() == seq![Scene::Dilemma(scene)],
            final(self).current() == Scene::Menu,
            final(self).mode() == SceneFlowMode::Campaign,
    {
        let mut queue: VecDeque<Scene> = VecDeque::new();
        queue.push_back(Scene::Dilemma(scene));
        assert(queue@ =~= seq![Scene::Dilemma(scene)]);
        self.queue = queue;
        self.current = Scene::Menu;
        self.flow_mode = SceneFlowMode::Campaign;
    }

    /// Plays the dilemma `scene` alone, then returns to the menu.
    pub fn configure_single_level(&mut self, scene: DilemmaScene)
        ensures
            final(self).pending() == seq![Scene::Dilemma(scene), Scene::Menu],
            final(self).current() == Scene::Menu,
            final(self).mode() == SceneFlowMode::SingleLevel,
    {
        self.configure_single_scene(Scene::Dilemma(scene));
    }

    pub fn flow_mode(&self) -> (r: SceneFlowMode)
        ensures
            r == self.mode(),
    {
        self.flow_mode
    }
}

impl Default for SceneQueue {
    fn default() -> (r: SceneQueue)
        ensures
            r.pending() == campaign_start(),
            r.current() == Scene::Menu,
            r.mode() == SceneFlowMode::Campaign,
    {
        SceneQueue::new()
    }
}

} // verus!

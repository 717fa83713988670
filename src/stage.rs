//! Stages of the game (the questions) and the answer matcher.
use vstd::prelude::*;
use crate::text::{eq_ignoring_case, pattern_compiles, pattern_matches, regex_compiles, regex_match, same_ignoring_case};

verus! {

/// One sub-question of a stage, with the answers that it accepts.
pub struct QuestionPart {
    pub content: String,
    /// Answers compared literally, ignoring ASCII case.
    pub answers: Vec<String>,
    /// Regular expressions, any of which accepts an answer that it matches.
    pub regex_answers: Vec<String>,
}

/// One stage: a prompt and its parts, plus where it lives once set up.
pub struct Question {
    pub content: String,
    pub image_path: Option<String>,
    pub attachment_path: Option<String>,
    pub parts: Vec<QuestionPart>,
    /// The channel that shows this stage, once channels exist.
    pub channel: Option<u64>,
    /// Token that ties the stage's submit control to it.
    pub custom_id: Option<String>,
    /// Role granted on completing the stage; none for the first stage.
    pub role_id: Option<u64>,
}

/// What a part accepts, as plain sequences.
pub ghost struct PartModel {
    pub answers: Seq<Seq<char>>,
    pub patterns: Seq<Seq<char>>,
}

impl View for QuestionPart {
    type V = PartModel;

    open spec fn view(&self) -> PartModel {
        PartModel {
            answers: self.answers@.map_values(|a: String| a@),
            patterns: self.regex_answers@.map_values(|p: String| p@),
        }
    }
}

/// The parts of a stage, as models.
pub open spec fn parts_model(q: &Question) -> Seq<PartModel> {
    q.parts@.map_values(|p: QuestionPart| p@)
}

/// The input equals one of the part's literal answers, ignoring ASCII case.
pub open spec fn literal_hit(part: PartModel, input: Seq<char>) -> bool {
    exists|j: int| 0 <= j < part.answers.len() && eq_ignoring_case(#[trigger] part.answers[j], input)
}

/// The input is matched by one of the part's patterns.
pub open spec fn pattern_hit(part: PartModel, input: Seq<char>) -> bool {
    exists|j: int| 0 <= j < part.patterns.len() && regex_match(#[trigger] part.patterns[j], input)
}

/// Every input passes its part literally.
pub open spec fn all_literal(parts: Seq<PartModel>, inputs: Seq<Seq<char>>) -> bool {
    inputs.len() == parts.len() && forall|i: int| 0 <= i < inputs.len() ==> literal_hit(parts[i], #[trigger] inputs[i])
}

/// Every input passes its part through a pattern.
pub open spec fn all_pattern(parts: Seq<PartModel>, inputs: Seq<Seq<char>>) -> bool {
    inputs.len() == parts.len() && forall|i: int| 0 <= i < inputs.len() ==> pattern_hit(parts[i], #[trigger] inputs[i])
}

/// A submission is accepted when all parts pass literally, or else all parts
/// pass through patterns; a submission of the wrong length never passes.
pub open spec fn spec_matches(parts: Seq<PartModel>, inputs: Seq<Seq<char>>) -> bool {
    all_literal(parts, inputs) || all_pattern(parts, inputs)
}

/// Every pattern of every part compiles.
pub open spec fn patterns_compile(parts: Seq<PartModel>) -> bool {
    forall|i: int, j: int|
        0 <= i < parts.len() && 0 <= j < parts[i].patterns.len() ==> regex_compiles(#[trigger] parts[i].patterns[j])
}

/// The submitted strings as character sequences.
pub open spec fn inputs_model(inputs: &Vec<String>) -> Seq<Seq<char>> {
    inputs@.map_values(|s: String| s@)
}

impl QuestionPart {
    pub fn new(content: String, answers: Vec<String>, regex_answers: Vec<String>) -> (r: QuestionPart)
        ensures
            r.content@ == content@,
            r.answers@ == answers@,
            r.regex_answers@ == regex_answers@,
    {
        QuestionPart { content, answers, regex_answers }
    }

    /// Whether `input` equals one of the literal answers, ignoring ASCII case.
    pub fn accepts_literally(&self, input: &str) -> (r: bool)
        ensures
            r == literal_hit(self@, input@),
    {
        let mut j: usize = 0;
        while j < self.answers.len()
            invariant
                j <= self.answers.len(),
                forall|k: int| 0 <= k < j ==> !eq_ignoring_case(#[trigger] self@.answers[k], input@),
            decreases self.answers.len() - j,
        {
            if same_ignoring_case(self.answers[j].as_str(), input) {
                assert(eq_ignoring_case(self@.answers[j as int], input@));
                return true;
            }
            j += 1;
        }
        false
    }

    /// Whether one of the patterns matches `input`.
    pub fn accepts_by_pattern(&self, input: &str) -> (r: bool)
        ensures
            r == pattern_hit(self@, input@),
    {
        let mut j: usize = 0;
        while j < self.regex_answers.len()
            invariant
                j <= self.regex_answers.len(),
                forall|k: int| 0 <= k < j ==> !regex_match(#[trigger] self@.patterns[k], input@),
            decreases self.regex_answers.len() - j,
        {
            if pattern_matches(self.regex_answers[j].as_str(), input) {
                assert(regex_match(self@.patterns[j as int], input@));
                return true;
            }
            j += 1;
        }
        false
    }
}

impl Question {
    pub fn new(content: String, parts: Vec<QuestionPart>) -> (r: Question)
        ensures
            r.content@ == content@,
            r.parts@ == parts@,
            r.image_path.is_none(),
            r.attachment_path.is_none(),
            r.channel.is_none(),
            r.custom_id.is_none(),
            r.role_id.is_none(),
    {
        Question {
            content,
            image_path: None,
            attachment_path: None,
            parts,
            channel: None,
            custom_id: None,
            role_id: None,
        }
    }

    /// Whether every submitted answer passes its part literally.
    pub fn all_parts_literal(&self, inputs: &Vec<String>) -> (r: bool)
        ensures
            r == all_literal(parts_model(self), inputs_model(inputs)),
    {
        if inputs.len() != self.parts.len() {
            return false;
        }
        let mut i: usize = 0;
        while i < inputs.len()
            invariant
                inputs.len() == self.parts.len(),
                i <= inputs.len(),
                forall|k: int| 0 <= k < i ==> literal_hit(parts_model(self)[k], #[trigger] inputs_model(inputs)[k]),
            decreases inputs.len() - i,
        {
            if !self.parts[i].accepts_literally(inputs[i].as_str()) {
                assert(!literal_hit(parts_model(self)[i as int], inputs_model(inputs)[i as int]));
                return false;
            }
            i += 1;
        }
        true
    }

    /// Whether every submitted answer passes its part through a pattern.
    pub fn all_parts_pattern(&self, inputs: &Vec<String>) -> (r: bool)
        ensures
            r == all_pattern(parts_model(self), inputs_model(inputs)),
    {
        if inputs.len() != self.parts.len() {
            return false;
        }
        let mut i: usize = 0;
        while i < inputs.len()
            invariant
                inputs.len() == self.parts.len(),
                i <= inputs.len(),
                forall|k: int| 0 <= k < i ==> pattern_hit(parts_model(self)[k], #[trigger] inputs_model(inputs)[k]),
            decreases inputs.len() - i,
        {
            if !self.parts[i].accepts_by_pattern(inputs[i].as_str()) {
                assert(!pattern_hit(parts_model(self)[i as int], inputs_model(inputs)[i as int]));
                return false;
            }
            i += 1;
        }
        true
    }

    /// Whether every pattern of the stage compiles; one that does not would
    /// never accept anything.
    pub fn patterns_valid(&self) -> (r: bool)
        ensures
            r == patterns_compile(parts_model(self)),
    {
        let mut i: usize = 0;
        while i < self.parts.len()
            invariant
                i <= self.parts@.len(),
                forall|a: int, b: int|
                    0 <= a < i && 0 <= b < parts_model(self)[a].patterns.len() ==> regex_compiles(
                        #[trigger] parts_model(self)[a].patterns[b],
                    ),
            decreases self.parts.len() - i,
        {
            let part = &self.parts[i];
            let mut j: usize = 0;
            while j < part.regex_answers.len()
                invariant
                    i < self.parts@.len(),
                    part == self.parts@[i as int],
                    j <= part.regex_answers@.len(),
                    forall|a: int, b: int|
                        0 <= a < i && 0 <= b < parts_model(self)[a].patterns.len() ==> regex_compiles(
                            #[trigger] parts_model(self)[a].patterns[b],
                        ),
                    forall|b: int| 0 <= b < j ==> regex_compiles(#[trigger] parts_model(self)[i as int].patterns[b]),
                decreases part.regex_answers.len() - j,
            {
                if !pattern_compiles(part.regex_answers[j].as_str()) {
                    assert(!regex_compiles(parts_model(self)[i as int].patterns[j as int]));
                    return false;
                }
                j += 1;
            }
            i += 1;
        }
        true
    }

    /// Decides a submission: literal answers for every part first, then
    /// patterns for every part; the two are never mixed.
    pub fn matches_answers(&self, inputs: &Vec<String>) -> (r: bool)
        ensures
            r == spec_matches(parts_model(self), inputs_model(inputs)),
    {
        if self.all_parts_literal(inputs) {
            return true;
        }
        self.all_parts_pattern(inputs)
    }
}

} // verus!

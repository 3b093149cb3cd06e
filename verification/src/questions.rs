//! The question bank: immutable records that are loaded once and only read
//! during a game.

use vstd::prelude::*;

verus! {

/// The character sequences of a list of strings.
pub open spec fn texts(v: Seq<String>) -> Seq<Seq<char>> {
    Seq::new(v.len(), |i: int| v[i]@)
}

/// Copies a list of strings.
pub fn clone_texts(v: &Vec<String>) -> (r: Vec<String>)
    ensures
        r@ == v@,
{
    let mut r: Vec<String> = Vec::new();
    let mut i: usize = 0;
    while i < v.len()
        invariant
            i <= v.len(),
            r@ == v@.subrange(0, i as int),
        decreases v.len() - i,
    {
        r.push(v[i].clone());
        proof {
            assert(r@ =~= v@.subrange(0, i + 1));
        }
        i += 1;
    }
    proof {
        assert(v@.subrange(0, v.len() as int) =~= v@);
    }
    r
}

/// Who wrote the bank, and when.
#[derive(Clone, Debug, PartialEq)]
pub struct Metadata {
    pub author: String,
    pub time: i64,
}

/// One question with its correct answer and three incorrect ones.
#[derive(Debug, PartialEq)]
pub struct Question {
    pub id: i64,
    pub category: Vec<String>,
    pub question: String,
    pub question_tts: String,
    pub context_information: String,
    pub context_information_tts: String,
    pub correct: String,
    pub correct_tts: String,
    pub incorrect_1: String,
    pub incorrect_2: String,
    pub incorrect_3: String,
    pub answer_options: Option<Vec<String>>,
}

/// What a question holds, as plain mathematical values.
pub struct QuestionView {
    pub id: i64,
    pub category: Seq<Seq<char>>,
    pub question: Seq<char>,
    pub question_tts: Seq<char>,
    pub context_information: Seq<char>,
    pub context_information_tts: Seq<char>,
    pub correct: Seq<char>,
    pub correct_tts: Seq<char>,
    pub incorrect_1: Seq<char>,
    pub incorrect_2: Seq<char>,
    pub incorrect_3: Seq<char>,
    pub answer_options: Option<Seq<Seq<char>>>,
}

impl View for Question {
    type V = QuestionView;

    open spec fn view(&self) -> QuestionView {
        QuestionView {
            id: self.id,
            category: texts(self.category@),
            question: self.question@,
            question_tts: self.question_tts@,
            context_information: self.context_information@,
            context_information_tts: self.context_information_tts@,
            correct: self.correct@,
            correct_tts: self.correct_tts@,
            incorrect_1: self.incorrect_1@,
            incorrect_2: self.incorrect_2@,
            incorrect_3: self.incorrect_3@,
            answer_options: match self.answer_options {
                Some(options) => Some(texts(options@)),
                None => None,
            },
        }
    }
}

impl QuestionView {
    /// The four answers in their canonical order: the correct one first.
    pub open spec fn options(self) -> Seq<Seq<char>> {
        seq![self.correct, self.incorrect_1, self.incorrect_2, self.incorrect_3]
    }

    /// Whether this is the question `base` as it is served: with its four
    /// answers attached in some order.
    pub open spec fn serves(self, base: QuestionView) -> bool {
        &&& self.answer_options is Some
        &&& self.answer_options->0.to_multiset() == base.options().to_multiset()
        &&& self == (QuestionView { answer_options: self.answer_options, ..base })
    }
}

impl Question {
    /// The four answers in their canonical order: the correct one first.
    pub open spec fn options(&self) -> Seq<Seq<char>> {
        self@.options()
    }

    /// The view of the placeholder question: identity zero and every text empty.
    pub open spec fn blank_view() -> QuestionView {
        QuestionView {
            id: 0,
            category: Seq::empty(),
            question: Seq::empty(),
            question_tts: Seq::empty(),
            context_information: Seq::empty(),
            context_information_tts: Seq::empty(),
            correct: Seq::empty(),
            correct_tts: Seq::empty(),
            incorrect_1: Seq::empty(),
            incorrect_2: Seq::empty(),
            incorrect_3: Seq::empty(),
            answer_options: None,
        }
    }

    /// The placeholder question that a game holds before the first one is picked.
    pub fn blank() -> (r: Question)
        ensures
            r@ == Question::blank_view(),
    {
        let category: Vec<String> = Vec::new();
        proof {
            assert(texts(category@) =~= Seq::<Seq<char>>::empty());
        }
        Question {
            id: 0,
            category,
            question: String::new(),
            question_tts: String::new(),
            context_information: String::new(),
            context_information_tts: String::new(),
            correct: String::new(),
            correct_tts: String::new(),
            incorrect_1: String::new(),
            incorrect_2: String::new(),
            incorrect_3: String::new(),
            answer_options: None,
        }
    }
}

impl Clone for Question {
    fn clone(&self) -> (r: Question)
        ensures
            r@ == self@,
    {
        let answer_options = match &self.answer_options {
            Some(options) => Some(clone_texts(options)),
            None => None,
        };
        Question {
            id: self.id,
            category: clone_texts(&self.category),
            question: self.question.clone(),
            question_tts: self.question_tts.clone(),
            context_information: self.context_information.clone(),
            context_information_tts: self.context_information_tts.clone(),
            correct: self.correct.clone(),
            correct_tts: self.correct_tts.clone(),
            incorrect_1: self.incorrect_1.clone(),
            incorrect_2: self.incorrect_2.clone(),
            incorrect_3: self.incorrect_3.clone(),
            answer_options,
        }
    }
}

impl Default for Question {
    fn default() -> (r: Question)
        ensures
            r@ == Question::blank_view(),
    {
        Question::blank()
    }
}

impl Default for Metadata {
    fn default() -> (r: Metadata)
        ensures
            r.author@.len() == 0,
            r.time == 0,
    {
        Metadata { author: String::new(), time: 0 }
    }
}

/// The whole bank.
#[derive(Clone, Debug, PartialEq)]
pub struct Root {
    pub metadata: Metadata,
    pub questions: Vec<Question>,
}

impl Default for Root {
    fn default() -> (r: Root)
        ensures
            r.metadata.author@.len() == 0,
            r.metadata.time == 0,
            r.questions@.len() == 0,
    {
        Root { metadata: Metadata { author: String::new(), time: 0 }, questions: Vec::new() }
    }
}

} // verus!

//! Picking the next question without repeating one, and shuffling the order
//! in which its four answers are shown.

use crate::questions::{texts, Question, QuestionView, Root};
use crate::state::{from_bank, in_bank, no_repeat, Questions};
use vstd::prelude::*;

verus! {

/// Draws an index below `n` with `rand::Rng::random_range` on the thread's
/// generator (`rand::rng`). The draw is random, so the contract states only
/// what holds of every outcome: it lies below `n`. An empty range makes the
/// outside function panic, so `n` must be positive.
#[verifier::external_body]
fn random_index(n: usize) -> (r: usize)
    requires
        n > 0,
    ensures
        r < n,
{
    rand::Rng::random_range(&mut rand::rng(), 0..n)
}

/// Reorders the list with `rand::seq::SliceRandom::shuffle` on the thread's
/// generator. The order that comes out is random; the contract states that it
/// is a rearrangement: every text occurs as often as before.
#[verifier::external_body]
fn shuffle_texts(options: &mut Vec<String>)
    ensures
        texts(final(options)@).to_multiset() == texts(old(options)@).to_multiset(),
{
    rand::seq::SliceRandom::shuffle(options.as_mut_slice(), &mut rand::rng());
}

/// Whether the ledger already holds a record with this question identity.
pub open spec fn asked(ledger: Seq<Questions>, id: i64) -> bool {
    exists|k: int| 0 <= k < ledger.len() && #[trigger] ledger[k].question_id == id
}

/// How a ledger and the question served relate after one selection. The
/// question served is recorded under the ordinal with its identity. It is
/// either a question of the bank whose identity was not asked before, or,
/// as the last resort after a draw that was asked before, the bank's first
/// question.
pub open spec fn picked(
    bank: Seq<Question>,
    before: Seq<Questions>,
    after: Seq<Questions>,
    question_number: u64,
    served: QuestionView,
) -> bool {
    &&& after == before.push(Questions { question_number, question_id: served.id })
    &&& {
        ||| (!asked(before, served.id) && exists|i: int|
            0 <= i < bank.len() && served == #[trigger] bank[i]@)
        ||| (served == bank[0]@ && exists|i: int|
            0 <= i < bank.len() && asked(before, (#[trigger] bank[i]).id))
    }
}

/// A selection brings a question identity into the ledger twice only as the
/// last resort: the question served is then the bank's first, and some
/// question of the bank was asked before. Any other selection leaves a
/// ledger in which no identity stood twice without one.
pub proof fn only_last_resort_repeats(
    bank: Seq<Question>,
    before: Seq<Questions>,
    after: Seq<Questions>,
    question_number: u64,
    served: QuestionView,
)
    requires
        picked(bank, before, after, question_number, served),
        no_repeat(before),
    ensures
        !asked(before, served.id) ==> no_repeat(after),
        before.len() == 0 ==> no_repeat(after),
        !no_repeat(after) ==> served == bank[0]@ && exists|i: int|
            0 <= i < bank.len() && asked(before, (#[trigger] bank[i]).id),
{
    if !asked(before, served.id) {
        assert forall|a: int, b: int| 0 <= a < b < after.len() implies after[a].question_id
            != after[b].question_id by {
            if b == before.len() {
                assert(before[a].question_id != served.id);
            }
        }
    }
}

/// Every identity that a selection records is one of the bank's.
pub proof fn picked_from_bank(
    bank: Seq<Question>,
    before: Seq<Questions>,
    after: Seq<Questions>,
    question_number: u64,
    served: QuestionView,
)
    requires
        picked(bank, before, after, question_number, served),
        bank.len() > 0,
        from_bank(before, bank),
    ensures
        from_bank(after, bank),
{
    let i = if !asked(before, served.id) {
        choose|i: int| 0 <= i < bank.len() && served == #[trigger] bank[i]@
    } else {
        0
    };
    assert(bank[i]@.id == served.id);
    assert forall|k: int| 0 <= k < after.len() implies in_bank(
        bank,
        (#[trigger] after[k]).question_id,
    ) by {
        if k == before.len() {
            assert(bank[i].id == after[k].question_id);
        } else {
            assert(after[k] == before[k]);
        }
    }
}

/// Whether the ledger holds a record with this question identity.
pub fn already_asked(ledger: &Vec<Questions>, id: i64) -> (r: bool)
    ensures
        r == asked(ledger@, id),
{
    let mut k: usize = 0;
    while k < ledger.len()
        invariant
            k <= ledger.len(),
            forall|j: int| 0 <= j < k ==> ledger@[j].question_id != id,
        decreases ledger.len() - k,
    {
        if ledger[k].question_id == id {
            return true;
        }
        k += 1;
    }
    false
}

/// Judges one draw: a question whose identity was asked before is discarded;
/// any other is recorded in the ledger under the ordinal, with its identity,
/// and served.
pub fn accept_draw(
    all_questions: &Root,
    ledger: &mut Vec<Questions>,
    question_number: u64,
    draw: usize,
) -> (r: Option<Question>)
    requires
        draw < all_questions.questions@.len(),
    ensures
        asked(old(ledger)@, all_questions.questions@[draw as int].id) ==> r is None
            && final(ledger)@ == old(ledger)@,
        !asked(old(ledger)@, all_questions.questions@[draw as int].id) ==> r is Some && r->0@
            == all_questions.questions@[draw as int]@ && final(ledger)@ == old(ledger)@.push(
            Questions { question_number, question_id: all_questions.questions@[draw as int].id },
        ),
{
    let id: i64 = all_questions.questions[draw].id;
    if already_asked(ledger, id) {
        None
    } else {
        ledger.push(Questions { question_number, question_id: id });
        Some(all_questions.questions[draw].clone())
    }
}

/// Selects the question for an ordinal and records it in the ledger. It
/// makes as many random draws as the bank has questions, at most, and serves
/// the first draw whose identity was not asked before. When every draw was
/// asked before it serves the bank's first question.
pub fn get_new_question(
    all_questions: &Root,
    ledger: &mut Vec<Questions>,
    question_number: u64,
) -> (r: Question)
    requires
        0 < all_questions.questions@.len(),
    ensures
        picked(all_questions.questions@, old(ledger)@, final(ledger)@, question_number, r@),
{
    let n: usize = all_questions.questions.len();
    let mut attempt: usize = 0;
    while attempt < n
        invariant
            n == all_questions.questions@.len(),
            0 < n,
            ledger@ == old(ledger)@,
            attempt > 0 ==> exists|i: int|
                0 <= i < n && asked(ledger@, (#[trigger] all_questions.questions@[i]).id),
        decreases n - attempt,
    {
        let draw: usize = random_index(n);
        match accept_draw(all_questions, ledger, question_number, draw) {
            Some(question) => {
                proof {
                    assert(all_questions.questions@[draw as int]@ == question@);
                }
                return question;
            },
            None => {
                proof {
                    assert(asked(ledger@, all_questions.questions@[draw as int].id));
                }
            },
        }
        attempt += 1;
    }
    ledger.push(Questions { question_number, question_id: all_questions.questions[0].id });
    all_questions.questions[0].clone()
}

/// Whether the newest record of the ledger repeats the identity of an
/// earlier one: the sign that a question had to be served again.
pub fn newest_repeats(ledger: &Vec<Questions>) -> (r: bool)
    ensures
        r == (ledger@.len() > 0 && asked(ledger@.drop_last(), ledger@.last().question_id)),
{
    if ledger.len() == 0 {
        return false;
    }
    let last: usize = ledger.len() - 1;
    let id: i64 = ledger[last].question_id;
    let mut k: usize = 0;
    while k < last
        invariant
            k <= last,
            last == ledger@.len() - 1,
            id == ledger@.last().question_id,
            forall|j: int| 0 <= j < k ==> ledger@[j].question_id != id,
        decreases last - k,
    {
        if ledger[k].question_id == id {
            proof {
                assert(ledger@.drop_last()[k as int].question_id == id);
            }
            return true;
        }
        k += 1;
    }
    proof {
        assert forall|j: int| 0 <= j < ledger@.drop_last().len() implies ledger@.drop_last()[j].question_id
            != id by {
            assert(ledger@.drop_last()[j] == ledger@[j]);
        }
    }
    false
}

/// The four answers of a question in a random order.
pub fn shuffle_answers(question: &Question) -> (r: Vec<String>)
    ensures
        r@.len() == 4,
        texts(r@).to_multiset() == question.options().to_multiset(),
{
    let mut options: Vec<String> = Vec::new();
    options.push(question.correct.clone());
    options.push(question.incorrect_1.clone());
    options.push(question.incorrect_2.clone());
    options.push(question.incorrect_3.clone());
    proof {
        assert(texts(options@) =~= question.options());
    }
    shuffle_texts(&mut options);
    proof {
        vstd::seq_lib::to_multiset_len(texts(options@));
        vstd::seq_lib::to_multiset_len(question.options());
    }
    options
}

} // verus!

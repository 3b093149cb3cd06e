//! Counting each player's correct answers at the end of a game, and ranking
//! the players by them.

use crate::questions::{Question, Root};
use crate::state::{from_bank, game_wf, in_bank, Answers, GameState, Player, Points, Questions};
use vstd::prelude::*;

verus! {

/// The identity that stands for "no question was recorded at this ordinal".
pub const UNKNOWN_QUESTION_ID: i64 = -999999;

/// Whether record `k` is the first of the ledger with this ordinal.
pub open spec fn first_record_at(ledger: Seq<Questions>, question_number: u64, k: int) -> bool {
    &&& 0 <= k < ledger.len()
    &&& ledger[k].question_number == question_number
    &&& forall|j: int| 0 <= j < k ==> (#[trigger] ledger[j]).question_number != question_number
}

/// The question identity that the ledger's first record with this ordinal
/// holds, or `None` where it has no record with this ordinal.
pub open spec fn recorded_id(ledger: Seq<Questions>, question_number: u64) -> Option<i64> {
    if exists|k: int| first_record_at(ledger, question_number, k) {
        Some(ledger[choose|k: int| first_record_at(ledger, question_number, k)].question_id)
    } else {
        None
    }
}

/// The question identity recorded for an ordinal, or `UNKNOWN_QUESTION_ID`
/// where none is.
pub open spec fn question_id_at(ledger: Seq<Questions>, question_number: u64) -> i64 {
    match recorded_id(ledger, question_number) {
        Some(id) => id,
        None => UNKNOWN_QUESTION_ID,
    }
}

/// Whether question `k` is the first of the bank with this identity.
pub open spec fn first_question_with(bank: Seq<Question>, id: i64, k: int) -> bool {
    &&& 0 <= k < bank.len()
    &&& bank[k].id == id
    &&& forall|j: int| 0 <= j < k ==> (#[trigger] bank[j]).id != id
}

/// The correct answer of the bank's first question with this identity, or
/// `None` where it has no question with this identity.
pub open spec fn correct_answer_in(bank: Seq<Question>, id: i64) -> Option<Seq<char>> {
    if exists|k: int| first_question_with(bank, id, k) {
        Some(bank[choose|k: int| first_question_with(bank, id, k)].correct@)
    } else {
        None
    }
}

/// The text that stands for the correct answer of an identity that the bank
/// does not hold. It serves diagnosis only: no answer is ever compared with
/// it.
pub open spec fn unknown_answer() -> Seq<char> {
    "-abcd"@
}

/// The correct answer of the question with this identity, or
/// `unknown_answer()` where the bank has none.
pub open spec fn correct_answer_of(bank: Seq<Question>, id: i64) -> Seq<char> {
    match correct_answer_in(bank, id) {
        Some(correct) => correct,
        None => unknown_answer(),
    }
}

/// Whether this answer record earns this player a point: it is the
/// player's, the ledger has a record for its ordinal, the bank has a
/// question of the identity recorded there, and the text equals that
/// question's correct answer. An answer whose question cannot be found
/// earns nothing, whatever its text.
pub open spec fn earns_point(
    answer: Answers,
    uuid: u128,
    ledger: Seq<Questions>,
    bank: Seq<Question>,
) -> bool {
    &&& answer.player_uuid == uuid
    &&& match recorded_id(ledger, answer.question_number) {
        Some(id) => correct_answer_in(bank, id) == Some(answer.answer@),
        None => false,
    }
}

/// Whether the question that this answer was given to can be found: the
/// ledger has a record for its ordinal, and the bank a question of the
/// identity recorded there.
pub open spec fn resolves(answer: Answers, ledger: Seq<Questions>, bank: Seq<Question>) -> bool {
    match recorded_id(ledger, answer.question_number) {
        Some(id) => correct_answer_in(bank, id) is Some,
        None => false,
    }
}

/// In a game in good order whose ledger was filled from the bank, the
/// question of every answer can be found: no answer is left out of the
/// scoring for want of a record.
pub proof fn answers_resolve(
    state: GameState,
    ledger: Seq<Questions>,
    answers: Seq<Answers>,
    bank: Seq<Question>,
    k: int,
)
    requires
        game_wf(state, ledger, answers),
        from_bank(ledger, bank),
        0 <= k < answers.len(),
    ensures
        resolves(answers[k], ledger, bank),
{
    let ordinal = answers[k].question_number;
    let at = ordinal - 1;
    assert(ledger[at].question_number == ordinal);
    assert forall|j: int| 0 <= j < at implies (#[trigger] ledger[j]).question_number
        != ordinal by {}
    assert(first_record_at(ledger, ordinal, at));
    let c = choose|c: int| first_record_at(ledger, ordinal, c);
    let id = ledger[c].question_id;
    assert(in_bank(bank, id));
    let some = choose|i: int| 0 <= i < bank.len() && (#[trigger] bank[i]).id == id;
    first_question_exists(bank, id, some);
}

/// Where the bank holds a question with an identity among its first `n + 1`,
/// one of them is the first with it.
proof fn first_question_exists(bank: Seq<Question>, id: i64, n: int)
    requires
        0 <= n < bank.len(),
        bank[n].id == id,
    ensures
        exists|k: int| first_question_with(bank, id, k),
    decreases n,
{
    if exists|j: int| 0 <= j < n && (#[trigger] bank[j]).id == id {
        let j = choose|j: int| 0 <= j < n && (#[trigger] bank[j]).id == id;
        first_question_exists(bank, id, j);
    } else {
        assert(first_question_with(bank, id, n));
    }
}

/// The number of points that the first `n` answer records earn a player.
pub open spec fn score_upto(
    answers: Seq<Answers>,
    n: nat,
    uuid: u128,
    ledger: Seq<Questions>,
    bank: Seq<Question>,
) -> nat
    decreases n,
{
    if n == 0 {
        0
    } else {
        score_upto(answers, (n - 1) as nat, uuid, ledger, bank) + if earns_point(
            answers[n - 1],
            uuid,
            ledger,
            bank,
        ) {
            1nat
        } else {
            0nat
        }
    }
}

/// The number of points that a player has earned.
pub open spec fn score_of(
    answers: Seq<Answers>,
    uuid: u128,
    ledger: Seq<Questions>,
    bank: Seq<Question>,
) -> nat {
    score_upto(answers, answers.len(), uuid, ledger, bank)
}

/// The question identity that the ledger's first record with an ordinal
/// holds, if it has one.
pub fn find_question_id(question_number: u64, questions: &Vec<Questions>) -> (r: Option<i64>)
    ensures
        r == recorded_id(questions@, question_number),
{
    let mut k: usize = 0;
    while k < questions.len()
        invariant
            k <= questions.len(),
            forall|j: int| 0 <= j < k ==> (#[trigger] questions@[j]).question_number != question_number,
        decreases questions.len() - k,
    {
        if questions[k].question_number == question_number {
            proof {
                assert(first_record_at(questions@, question_number, k as int));
                let c = choose|c: int| first_record_at(questions@, question_number, c);
                assert(c == k) by {
                    if c < k {
                        assert(questions@[c].question_number != question_number);
                    }
                    if k < c {
                        assert(questions@[k as int].question_number != question_number);
                    }
                }
            }
            return Some(questions[k].question_id);
        }
        k += 1;
    }
    None
}

/// The correct answer of the bank's first question with an identity, if it
/// has one.
pub fn find_correct_answer(question_id: i64, root: &Root) -> (r: Option<String>)
    ensures
        r is Some == correct_answer_in(root.questions@, question_id) is Some,
        r is Some ==> r->0@ == correct_answer_in(root.questions@, question_id)->0,
{
    let mut k: usize = 0;
    while k < root.questions.len()
        invariant
            k <= root.questions.len(),
            forall|j: int| 0 <= j < k ==> (#[trigger] root.questions@[j]).id != question_id,
        decreases root.questions.len() - k,
    {
        if root.questions[k].id == question_id {
            proof {
                assert(first_question_with(root.questions@, question_id, k as int));
                let c = choose|c: int| first_question_with(root.questions@, question_id, c);
                assert(c == k) by {
                    if c < k {
                        assert(root.questions@[c].id != question_id);
                    }
                    if k < c {
                        assert(root.questions@[k as int].id != question_id);
                    }
                }
            }
            return Some(root.questions[k].correct.clone());
        }
        k += 1;
    }
    None
}

/// The question identity recorded for an ordinal, or `UNKNOWN_QUESTION_ID`
/// where the ledger has no record for it.
pub fn get_question_id_for_question_number(question_number: u64, questions: &Vec<Questions>) -> (r:
    i64)
    ensures
        r == question_id_at(questions@, question_number),
{
    match find_question_id(question_number, questions) {
        Some(id) => id,
        None => UNKNOWN_QUESTION_ID,
    }
}

/// The correct answer of the question with an identity, or the text "-abcd"
/// where the bank has no such question.
pub fn get_correct_answer_for_question_id(question_id: i64, root: &Root) -> (r: String)
    ensures
        r@ == correct_answer_of(root.questions@, question_id),
{
    match find_correct_answer(question_id, root) {
        Some(correct) => correct,
        None => String::from_str("-abcd"),
    }
}

/// Whether an answer's text is the correct answer of the question that was
/// asked at its ordinal. Where that question cannot be found, it is not.
pub fn is_correct(answer: &Answers, root: &Root, questions: &Vec<Questions>) -> (r: bool)
    ensures
        r == earns_point(*answer, answer.player_uuid, questions@, root.questions@),
{
    match find_question_id(answer.question_number, questions) {
        Some(id) => match find_correct_answer(id, root) {
            Some(correct) => answer.answer == correct,
            None => false,
        },
        None => false,
    }
}

/// Of the first `n` lines, the index of the first one with the most points.
pub open spec fn leader_upto(lines: Seq<Points>, n: nat) -> int
    decreases n,
{
    if n <= 1 {
        0
    } else {
        let best = leader_upto(lines, (n - 1) as nat);
        if lines[n - 1].points > lines[best].points {
            n - 1
        } else {
            best
        }
    }
}

/// The index of the first line with the most points.
pub open spec fn leader(lines: Seq<Points>) -> int {
    leader_upto(lines, lines.len())
}

/// The lines ranked: the leader of all, then the leader of those that remain,
/// and so on.
pub open spec fn ranked(lines: Seq<Points>) -> Seq<Points>
    decreases lines.len(),
    via ranked_decreases
{
    if lines.len() == 0 {
        Seq::empty()
    } else {
        seq![lines[leader(lines)]] + ranked(lines.remove(leader(lines)))
    }
}

#[via_fn]
proof fn ranked_decreases(lines: Seq<Points>) {
    if lines.len() > 0 {
        leader_is_first_maximum(lines, lines.len());
    }
}

/// The leader is one of the lines, none has more points, and none before it
/// has as many.
pub proof fn leader_is_first_maximum(lines: Seq<Points>, n: nat)
    requires
        0 < n <= lines.len(),
    ensures
        0 <= leader_upto(lines, n) < n,
        forall|j: int| 0 <= j < n ==> (#[trigger] lines[j]).points <= lines[leader_upto(lines, n)].points,
        forall|j: int|
            0 <= j < leader_upto(lines, n) ==> (#[trigger] lines[j]).points < lines[leader_upto(
                lines,
                n,
            )].points,
    decreases n,
{
    if n > 1 {
        leader_is_first_maximum(lines, (n - 1) as nat);
    }
}

/// Ranking rearranges the lines: each line stands in the ranking as often
/// as among the lines, so there are as many.
pub proof fn ranked_rearranges(lines: Seq<Points>)
    ensures
        ranked(lines).to_multiset() == lines.to_multiset(),
        ranked(lines).len() == lines.len(),
    decreases lines.len(),
{
    broadcast use vstd::seq_lib::group_to_multiset_ensures;

    if lines.len() == 0 {
        assert(ranked(lines) =~= lines);
    } else {
        leader_is_first_maximum(lines, lines.len());
        let top = leader(lines);
        let rest = lines.remove(top);
        ranked_rearranges(rest);
        vstd::seq_lib::to_multiset_remove(lines, top);
        vstd::seq_lib::lemma_multiset_commutative(seq![lines[top]], ranked(rest));
        assert(seq![lines[top]] =~= Seq::<Points>::empty().push(lines[top]));
        assert(seq![lines[top]].to_multiset() =~= vstd::multiset::Multiset::singleton(lines[top]));
        assert(ranked(lines).to_multiset() =~= lines.to_multiset());
    }
}

/// In a ranking no line has fewer points than the line after it.
pub proof fn ranked_descends(lines: Seq<Points>, i: int)
    requires
        0 <= i,
        i + 1 < ranked(lines).len(),
    ensures
        ranked(lines)[i].points >= ranked(lines)[i + 1].points,
    decreases lines.len(),
{
    ranked_rearranges(lines);
    leader_is_first_maximum(lines, lines.len());
    let top = leader(lines);
    let rest = lines.remove(top);
    ranked_rearranges(rest);
    if i == 0 {
        leader_is_first_maximum(rest, rest.len());
        let next = leader(rest);
        assert(ranked(lines)[1] == ranked(rest)[0]);
        assert(ranked(rest)[0] == rest[next]);
        assert(rest[next] == if next < top { lines[next] } else { lines[next + 1] });
    } else {
        assert(ranked(lines)[i] == ranked(rest)[i - 1]);
        assert(ranked(lines)[i + 1] == ranked(rest)[i]);
        ranked_descends(rest, i - 1);
    }
}

/// Lines that come with no line ahead of one with more points are ranked as
/// they came: among equal points the earlier line stays first.
pub proof fn ranked_keeps_descending(lines: Seq<Points>)
    requires
        forall|i: int, j: int| 0 <= i < j < lines.len() ==> lines[i].points >= lines[j].points,
    ensures
        ranked(lines) == lines,
    decreases lines.len(),
{
    if lines.len() == 0 {
        assert(ranked(lines) =~= lines);
    } else {
        leader_is_first_maximum(lines, lines.len());
        let top = leader(lines);
        if top > 0 {
            assert(lines[0].points < lines[top].points);
        }
        let rest = lines.remove(0);
        ranked_keeps_descending(rest);
        assert(seq![lines[0]] + rest =~= lines);
    }
}

/// What tells the lines with a given number of points from the others.
pub open spec fn has_points(points: u32) -> spec_fn(Points) -> bool {
    |line: Points| line.points == points
}

proof fn none_has_points(lines: Seq<Points>, points: u32)
    requires
        forall|i: int| 0 <= i < lines.len() ==> (#[trigger] lines[i]).points != points,
    ensures
        lines.filter(has_points(points)) == Seq::<Points>::empty(),
    decreases lines.len(),
{
    reveal(Seq::filter);
    if lines.len() > 0 {
        none_has_points(lines.drop_last(), points);
    }
    assert(lines.filter(has_points(points)) =~= Seq::<Points>::empty());
}

/// Ranking is stable: the lines with any one number of points stand in the
/// ranking in the order in which they came.
pub proof fn ranked_is_stable(lines: Seq<Points>, points: u32)
    ensures
        ranked(lines).filter(has_points(points)) == lines.filter(has_points(points)),
    decreases lines.len(),
{
    if lines.len() == 0 {
        assert(ranked(lines) =~= lines);
    } else {
        leader_is_first_maximum(lines, lines.len());
        let top = leader(lines);
        let rest = lines.remove(top);
        ranked_is_stable(rest, points);
        let pred = has_points(points);
        let head = seq![lines[top]];
        let before = lines.subrange(0, top);
        let after = lines.subrange(top + 1, lines.len() as int);
        assert(lines =~= (before + head) + after);
        assert(rest =~= before + after);
        Seq::filter_distributes_over_add(head, ranked(rest), pred);
        Seq::filter_distributes_over_add(before + head, after, pred);
        Seq::filter_distributes_over_add(before, head, pred);
        Seq::filter_distributes_over_add(before, after, pred);
        if lines[top].points == points {
            assert forall|i: int| 0 <= i < before.len() implies (#[trigger] before[i]).points
                != points by {
                assert(before[i] == lines[i]);
            }
            none_has_points(before, points);
            assert(before.filter(pred) + head.filter(pred) =~= head.filter(pred));
            assert(before.filter(pred) + after.filter(pred) =~= after.filter(pred));
        } else {
            none_has_points(head, points);
            assert(before.filter(pred) + head.filter(pred) =~= before.filter(pred));
        }
    }
}

/// Ranks the lines by points, most first. Lines with equal points keep the
/// order in which they came.
pub fn sort_results_by_points(input: Vec<Points>) -> (r: Option<Vec<Points>>)
    ensures
        r is Some,
        r->0@ == ranked(input@),
{
    let mut result: Vec<Points> = Vec::new();
    let mut points = input;
    while points.len() > 0
        invariant
            result@ + ranked(points@) == ranked(input@),
        decreases points.len(),
    {
        let mut index: usize = 0;
        let mut idx: usize = 1;
        while idx < points.len()
            invariant
                1 <= idx <= points.len(),
                index < idx,
                index == leader_upto(points@, idx as nat),
            decreases points.len() - idx,
        {
            if points[idx].points > points[index].points {
                index = idx;
            }
            idx += 1;
        }
        let ghost before = points@;
        let ghost done = result@;
        let top = points.remove(index);
        result.push(top);
        proof {
            assert(ranked(before) == seq![before[leader(before)]] + ranked(
                before.remove(leader(before)),
            ));
            assert(result@ + ranked(points@) =~= done + ranked(before));
        }
    }
    proof {
        assert(result@ + ranked(points@) =~= result@);
    }
    Some(result)
}

/// The unranked results: one line per player, in roster order, with the
/// player's name and score.
pub open spec fn tally(
    players: Seq<Player>,
    answers: Seq<Answers>,
    ledger: Seq<Questions>,
    bank: Seq<Question>,
) -> Seq<Points> {
    Seq::new(
        players.len(),
        |i: int|
            Points {
                player_name: players[i].name,
                points: score_of(answers, players[i].uuid, ledger, bank) as u32,
            },
    )
}

/// The number of points that a player has earned.
pub fn count_player_points(
    uuid: u128,
    root: &Root,
    questions: &Vec<Questions>,
    answers: &Vec<Answers>,
) -> (r: u32)
    requires
        answers@.len() <= u32::MAX,
    ensures
        r == score_of(answers@, uuid, questions@, root.questions@),
{
    let mut points: u32 = 0;
    let mut k: usize = 0;
    while k < answers.len()
        invariant
            k <= answers.len(),
            answers@.len() <= u32::MAX,
            points == score_upto(answers@, k as nat, uuid, questions@, root.questions@),
            points <= k,
        decreases answers.len() - k,
    {
        if answers[k].player_uuid == uuid && is_correct(&answers[k], root, questions) {
            points += 1;
        }
        k += 1;
    }
    points
}

/// The final results: every player's name and score, ranked.
pub fn count_points(
    all_questions: &Root,
    game_state: &GameState,
    questions: &Vec<Questions>,
    answers: &Vec<Answers>,
) -> (r: Option<Vec<Points>>)
    requires
        answers@.len() <= u32::MAX,
    ensures
        r is Some,
        r->0@ == ranked(
            tally(game_state.players@, answers@, questions@, all_questions.questions@),
        ),
        r->0@.len() == game_state.players@.len(),
{
    let mut result: Vec<Points> = Vec::new();
    let mut i: usize = 0;
    while i < game_state.players.len()
        invariant
            i <= game_state.players.len(),
            answers@.len() <= u32::MAX,
            result@.len() == i,
            forall|j: int|
                0 <= j < i ==> #[trigger] result@[j] == tally(
                    game_state.players@,
                    answers@,
                    questions@,
                    all_questions.questions@,
                )[j],
        decreases game_state.players.len() - i,
    {
        let points = count_player_points(
            game_state.players[i].uuid,
            all_questions,
            questions,
            answers,
        );
        result.push(Points { player_name: game_state.players[i].name.clone(), points });
        i += 1;
    }
    proof {
        assert(result@ =~= tally(
            game_state.players@,
            answers@,
            questions@,
            all_questions.questions@,
        ));
        ranked_rearranges(result@);
    }
    sort_results_by_points(result)
}

} // verus!

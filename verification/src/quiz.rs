//! The quiz generator: picks four records at random, designates one as the
//! correct answer, draws a random snippet range of the correct recording
//! sized between 5% and 10% of the file, and assembles the question with a
//! playback URL for the snippet.

use crate::errors::AppError;
use crate::models::Piece;
use crate::models::unique_ids;
use crate::query::list_random;
use crate::range::ByteRange;
use crate::range::range_ok;
use crate::range::validate_range;
use crate::rng::rand_u32_in;
use crate::text::dec_rep;
use crate::text::u32_to_string;
use vstd::prelude::*;
use vstd::string::StringExecFns;

verus! {

/// One multiple-choice question: four candidate recordings, the one that is
/// playing, the snippet range drawn for it, and the URL under which the
/// snippet can be fetched.
pub struct QuizQuestion {
    pub candidates: Vec<Piece>,
    pub correct: Piece,
    pub sample: ByteRange,
    pub correct_url: String,
}

/// The playback reference for a snippet: `/media/partial/{title}/{start}/{end}`.
pub open spec fn media_partial_url(title: Seq<char>, rg: ByteRange) -> Seq<char> {
    "/media/partial/"@ + title + "/"@ + dec_rep(rg.start as int) + "/"@ + dec_rep(rg.end as int)
}

/// Builds the playback URL for a snippet of the named recording.
pub fn build_partial_url(title: &String, rg: ByteRange) -> (r: String)
    ensures
        r@ == media_partial_url(title@, rg),
{
    let mut r: String = "/media/partial/".to_owned();
    r.append(title.as_str());
    r.append("/");
    let start_digits = u32_to_string(rg.start);
    r.append(start_digits.as_str());
    r.append("/");
    let end_digits = u32_to_string(rg.end);
    r.append(end_digits.as_str());
    r
}

/// The width drawn for a file of size `f` lay in `[f/20, f/10)` before the
/// zero-bump: either the validated range still has that width, or its start
/// was bumped from zero to one and its end equals the drawn width.
pub open spec fn sample_width_ok(rg: ByteRange, f: u32) -> bool {
    ||| f as int / 20 <= rg.width() < f as int / 10
    ||| (rg.start == 1 && f as int / 20 <= rg.end < f as int / 10)
}

/// Draws the snippet range for a recording of the given size: a width
/// uniform in `[size/20, size/10)` — 5% to 10% of the file — then a start
/// uniform in `[0, size - width)`, then the pair is validated (a start of
/// zero is bumped to one).  A degenerate size is clamped rather than
/// rejected: the width to at least one byte, the start bound to at least
/// one; only a recording of size zero fails, with `InvalidRange`.
pub fn choose_sample(file_size: u32) -> (r: Result<ByteRange, AppError>)
    ensures
        r is Ok <==> file_size >= 1,
        r is Err ==> r == Err::<ByteRange, AppError>(AppError::InvalidRange),
        r is Ok ==> r->Ok_0.wf() && r->Ok_0.end <= file_size,
        (r is Ok && file_size >= 20) ==> sample_width_ok(r->Ok_0, file_size),
{
    let low: u32 = file_size / 20;
    let high: u32 = file_size / 10;
    proof {
        let f: int = file_size as int;
        if file_size >= 1 {
            vstd::arithmetic::div_mod::lemma_div_is_strictly_smaller(f, 20);
            vstd::arithmetic::div_mod::lemma_div_is_strictly_smaller(f, 10);
        }
        if file_size >= 20 {
            vstd::arithmetic::div_mod::lemma_div_non_zero(f, 20);
            vstd::arithmetic::div_mod::lemma_div_denominator(f, 10, 2);
            vstd::arithmetic::div_mod::lemma_div_is_ordered(20, f, 10);
            vstd::arithmetic::div_mod::lemma_div_is_strictly_smaller(f / 10, 2);
            assert(f / 20 < f / 10);
        }
    }
    let drawn: u32 = if low < high {
        rand_u32_in(low, high)
    } else {
        low
    };
    let chunk: u32 = if drawn == 0 {
        1
    } else {
        drawn
    };
    let ubound: u32 = if file_size > chunk {
        file_size - chunk
    } else {
        1
    };
    let start: u32 = rand_u32_in(0, ubound);
    let end: u32 = start + chunk;
    let r = validate_range(start, end, file_size);
    proof {
        if file_size >= 1 {
            assert(chunk <= file_size);
            assert(range_ok(start, end, file_size));
        } else {
            assert(!range_ok(start, end, file_size));
        }
    }
    r
}

/// Every record of the catalog backs at least one byte of audio.
pub open spec fn all_nonempty(s: Seq<Piece>) -> bool {
    forall|i: int| 0 <= i < s.len() ==> (#[trigger] s[i]).file_size >= 1
}

/// Generates one quiz question from the catalog.
///
/// Four records are drawn at random; one of them, picked uniformly, is the
/// correct answer; a snippet range of the correct recording is drawn and
/// validated.  Fails with `InsufficientData` exactly when the catalog holds
/// fewer than four records, and with `InvalidRange` only when the drawn
/// recording declares a size of zero.
pub fn generate_quiz(catalog: &Vec<Piece>) -> (r: Result<QuizQuestion, AppError>)
    requires
        unique_ids(catalog@),
    ensures
        (r is Err && r->Err_0 == AppError::InsufficientData) <==> catalog@.len() < 4,
        r is Err ==> (r->Err_0 == AppError::InsufficientData || r->Err_0 == AppError::InvalidRange),
        (r is Err && r->Err_0 == AppError::InvalidRange) ==> exists|i: int|
            0 <= i < catalog@.len() && (#[trigger] catalog@[i]).file_size == 0,
        (catalog@.len() >= 4 && all_nonempty(catalog@)) ==> r is Ok,
        r is Ok ==> ({
            let q = r->Ok_0;
            &&& q.candidates@.len() == 4
            &&& unique_ids(q.candidates@)
            &&& q.candidates@.contains(q.correct)
            &&& forall|i: int| 0 <= i < 4 ==> catalog@.contains(#[trigger] q.candidates@[i])
            &&& q.sample.wf()
            &&& q.sample.end <= q.correct.file_size
            &&& (q.correct.file_size >= 20 ==> sample_width_ok(q.sample, q.correct.file_size))
            &&& q.correct_url@ == media_partial_url(q.correct.title@, q.sample)
        }),
{
    let pool = list_random(catalog, 4);
    if pool.len() != 4 {
        return Err(AppError::InsufficientData);
    }
    let idx: usize = rand_u32_in(0, 4) as usize;
    let correct = pool[idx].clone();
    assert(pool@.contains(correct));
    assert(catalog@.contains(correct));
    proof {
        if correct.file_size == 0 {
            let w: int = choose|w: int| 0 <= w < catalog@.len() && catalog@[w] == correct;
            assert(catalog@[w].file_size == 0);
        }
        if all_nonempty(catalog@) {
            let w: int = choose|w: int| 0 <= w < catalog@.len() && catalog@[w] == correct;
            assert(catalog@[w].file_size >= 1);
        }
    }
    let sample = match choose_sample(correct.file_size) {
        Ok(s) => s,
        Err(e) => {
            return Err(e);
        },
    };
    let correct_url = build_partial_url(&correct.title, sample);
    Ok(QuizQuestion { candidates: pool, correct, sample, correct_url })
}

} // verus!

//! The background generator: how long it waits between ticks, which kind
//! of line it emits on each tick, and the tick itself.
use vstd::prelude::*;
use rand::rngs::StdRng;
use crate::random::draw_below;
use crate::text::Span;
use crate::logs::{
    generate_system_log, generate_database_log, generate_network_log, generate_ai_log,
    generate_security_log, generate_processing_log, system_log_lines, database_log_lines,
    network_log_lines, ai_log_lines, security_log_lines, processing_log_lines,
};
use crate::matrix::{
    generate_matrix_code, generate_matrix_system, generate_matrix_data, generate_matrix_neural,
    generate_matrix_random, matrix_code_lines, matrix_system_lines, matrix_data_lines,
    matrix_neural_lines, matrix_random_lines,
};

verus! {

/// Milliseconds between normal-mode lines.
pub const NORMAL_INTERVAL_MS: u64 = 2000;

/// Milliseconds between normal-mode lines in quick mode.
pub const QUICK_INTERVAL_MS: u64 = 200;

/// Matrix-mode waits are drawn from `[MATRIX_DELAY_MIN_MS, MATRIX_DELAY_END_MS)`.
pub const MATRIX_DELAY_MIN_MS: u64 = 50;

pub const MATRIX_DELAY_END_MS: u64 = 300;

/// Normal-mode kinds are picked by a draw from `[0, NORMAL_DRAWS)`.
pub const NORMAL_DRAWS: u64 = 10;

/// Matrix-mode kinds are picked by a draw from `[0, MATRIX_DRAWS)`.
pub const MATRIX_DRAWS: u64 = 15;

#[derive(Clone, Copy, Debug, PartialEq, Eq, Structural)]
pub enum NormalCategory {
    System,
    Database,
    Network,
    Ai,
    Security,
    Processing,
}

#[derive(Clone, Copy, Debug, PartialEq, Eq, Structural)]
pub enum MatrixCategory {
    Code,
    System,
    Data,
    Neural,
    Random,
}

/// The kind of normal line that a draw selects.
pub open spec fn normal_category_of(draw: nat) -> NormalCategory {
    if draw <= 2 {
        NormalCategory::System
    } else if draw <= 4 {
        NormalCategory::Database
    } else if draw <= 6 {
        NormalCategory::Network
    } else if draw == 7 {
        NormalCategory::Ai
    } else if draw == 8 {
        NormalCategory::Security
    } else {
        NormalCategory::Processing
    }
}

/// The kind of matrix line that a draw selects.
pub open spec fn matrix_category_of(draw: nat) -> MatrixCategory {
    if draw <= 3 {
        MatrixCategory::Code
    } else if draw <= 6 {
        MatrixCategory::System
    } else if draw <= 9 {
        MatrixCategory::Data
    } else if draw <= 12 {
        MatrixCategory::Neural
    } else {
        MatrixCategory::Random
    }
}

/// The weight of each normal kind, out of `NORMAL_DRAWS`.
pub open spec fn normal_weight(c: NormalCategory) -> nat {
    match c {
        NormalCategory::System => 3,
        NormalCategory::Database => 2,
        NormalCategory::Network => 2,
        NormalCategory::Ai => 1,
        NormalCategory::Security => 1,
        NormalCategory::Processing => 1,
    }
}

/// The weight of each matrix kind, out of `MATRIX_DRAWS`.
pub open spec fn matrix_weight(c: MatrixCategory) -> nat {
    match c {
        MatrixCategory::Code => 4,
        MatrixCategory::System => 3,
        MatrixCategory::Data => 3,
        MatrixCategory::Neural => 3,
        MatrixCategory::Random => 2,
    }
}

/// How many draws below `n` select the normal kind `c`.
pub open spec fn normal_draws_for(c: NormalCategory, n: nat) -> nat
    decreases n,
{
    if n == 0 {
        0
    } else {
        normal_draws_for(c, (n - 1) as nat) + if normal_category_of((n - 1) as nat) == c {
            1nat
        } else {
            0nat
        }
    }
}

/// How many draws below `n` select the matrix kind `c`.
pub open spec fn matrix_draws_for(c: MatrixCategory, n: nat) -> nat
    decreases n,
{
    if n == 0 {
        0
    } else {
        matrix_draws_for(c, (n - 1) as nat) + if matrix_category_of((n - 1) as nat) == c {
            1nat
        } else {
            0nat
        }
    }
}

/// Each normal kind is selected by exactly as many of the uniform draws as
/// its weight.
pub proof fn lemma_normal_weights(c: NormalCategory)
    ensures
        normal_draws_for(c, NORMAL_DRAWS as nat) == normal_weight(c),
{
    reveal_with_fuel(normal_draws_for, 11);
}

/// Each matrix kind is selected by exactly as many of the uniform draws as
/// its weight.
pub proof fn lemma_matrix_weights(c: MatrixCategory)
    ensures
        matrix_draws_for(c, MATRIX_DRAWS as nat) == matrix_weight(c),
{
    reveal_with_fuel(matrix_draws_for, 16);
}

pub fn normal_category(draw: u64) -> (c: NormalCategory)
    ensures
        c == normal_category_of(draw as nat),
{
    if draw <= 2 {
        NormalCategory::System
    } else if draw <= 4 {
        NormalCategory::Database
    } else if draw <= 6 {
        NormalCategory::Network
    } else if draw == 7 {
        NormalCategory::Ai
    } else if draw == 8 {
        NormalCategory::Security
    } else {
        NormalCategory::Processing
    }
}

pub fn matrix_category(draw: u64) -> (c: MatrixCategory)
    ensures
        c == matrix_category_of(draw as nat),
{
    if draw <= 3 {
        MatrixCategory::Code
    } else if draw <= 6 {
        MatrixCategory::System
    } else if draw <= 9 {
        MatrixCategory::Data
    } else if draw <= 12 {
        MatrixCategory::Neural
    } else {
        MatrixCategory::Random
    }
}

/// The kinds that a sequence of draws selects, one for each draw.
pub fn select_normal_categories(draws: &Vec<u64>) -> (r: Vec<NormalCategory>)
    ensures
        r@.len() == draws@.len(),
        forall|i: int| 0 <= i < draws@.len() ==> r@[i] == normal_category_of(#[trigger] draws@[i] as nat),
{
    let mut r: Vec<NormalCategory> = Vec::new();
    let mut i: usize = 0;
    while i < draws.len()
        invariant
            i <= draws@.len(),
            r@.len() == i,
            forall|k: int| 0 <= k < i ==> r@[k] == normal_category_of(#[trigger] draws@[k] as nat),
        decreases draws@.len() - i,
    {
        r.push(normal_category(draws[i]));
        i = i + 1;
    }
    r
}

/// The wait between normal-mode lines.
pub fn normal_interval_ms(quick: bool) -> (r: u64)
    ensures
        r == if quick { QUICK_INTERVAL_MS } else { NORMAL_INTERVAL_MS },
{
    if quick {
        QUICK_INTERVAL_MS
    } else {
        NORMAL_INTERVAL_MS
    }
}

/// The wait before the next tick: the fixed normal interval, or in matrix
/// mode a fresh draw from `[50, 300)` milliseconds.
pub fn tick_delay_ms(rng: &mut StdRng, matrix_mode: bool, quick: bool) -> (r: u64)
    ensures
        matrix_mode ==> MATRIX_DELAY_MIN_MS <= r < MATRIX_DELAY_END_MS,
        !matrix_mode ==> r == if quick { QUICK_INTERVAL_MS } else { NORMAL_INTERVAL_MS },
{
    if matrix_mode {
        draw_below(rng, MATRIX_DELAY_MIN_MS, MATRIX_DELAY_END_MS)
    } else {
        normal_interval_ms(quick)
    }
}

/// The lines that a normal kind may give.
pub open spec fn normal_lines(c: NormalCategory, ts: Seq<char>, lines: Seq<Vec<Span>>) -> bool {
    match c {
        NormalCategory::System => system_log_lines(ts, lines),
        NormalCategory::Database => database_log_lines(ts, lines),
        NormalCategory::Network => network_log_lines(ts, lines),
        NormalCategory::Ai => ai_log_lines(ts, lines),
        NormalCategory::Security => security_log_lines(ts, lines),
        NormalCategory::Processing => processing_log_lines(ts, lines),
    }
}

/// The lines that a matrix kind may give.
pub open spec fn matrix_lines(c: MatrixCategory, lines: Seq<Vec<Span>>) -> bool {
    match c {
        MatrixCategory::Code => matrix_code_lines(lines),
        MatrixCategory::System => matrix_system_lines(lines),
        MatrixCategory::Data => matrix_data_lines(lines),
        MatrixCategory::Neural => matrix_neural_lines(lines),
        MatrixCategory::Random => matrix_random_lines(lines),
    }
}

/// The lines of one kind of normal line.
pub fn generate_normal(rng: &mut StdRng, c: NormalCategory, timestamp: &str) -> (lines: Vec<Vec<Span>>)
    ensures
        normal_lines(c, timestamp@, lines@),
{
    match c {
        NormalCategory::System => generate_system_log(rng, timestamp),
        NormalCategory::Database => generate_database_log(rng, timestamp),
        NormalCategory::Network => generate_network_log(rng, timestamp),
        NormalCategory::Ai => generate_ai_log(rng, timestamp),
        NormalCategory::Security => generate_security_log(rng, timestamp),
        NormalCategory::Processing => generate_processing_log(rng, timestamp),
    }
}

/// The lines of one kind of matrix line.
pub fn generate_matrix(rng: &mut StdRng, c: MatrixCategory) -> (lines: Vec<Vec<Span>>)
    ensures
        matrix_lines(c, lines@),
{
    match c {
        MatrixCategory::Code => generate_matrix_code(rng),
        MatrixCategory::System => generate_matrix_system(rng),
        MatrixCategory::Data => generate_matrix_data(rng),
        MatrixCategory::Neural => generate_matrix_neural(rng),
        MatrixCategory::Random => generate_matrix_random(rng),
    }
}

/// Relies on `chrono::Local::now` and `DateTime::format`: the local time,
/// as year-month-day hours:minutes:seconds.milliseconds. It depends on the
/// clock and the time zone, so nothing is stated of it.
#[verifier::external_body]
pub fn get_timestamp() -> String {
    chrono::Local::now().format("%Y-%m-%d %H:%M:%S%.3f").to_string()
}

/// What one tick of the generator emits.
#[derive(Debug, PartialEq, Eq)]
pub enum TickOutput {
    Normal(NormalCategory, Vec<Vec<Span>>),
    Matrix(MatrixCategory, Vec<Vec<Span>>),
}

/// What a tick may emit in the given mode: a kind that some draw selects,
/// and lines of that kind.
pub open spec fn tick_output_valid(out: TickOutput, matrix_mode: bool) -> bool {
    match out {
        TickOutput::Normal(c, lines) => {
            &&& !matrix_mode
            &&& exists|d: nat| d < NORMAL_DRAWS && #[trigger] normal_category_of(d) == c
            &&& exists|ts: Seq<char>| #[trigger] normal_lines(c, ts, lines@)
        },
        TickOutput::Matrix(c, lines) => {
            &&& matrix_mode
            &&& exists|d: nat| d < MATRIX_DRAWS && #[trigger] matrix_category_of(d) == c
            &&& matrix_lines(c, lines@)
        },
    }
}

/// One tick, after its wait: nothing once exit is requested, which ends the
/// generator; else a kind drawn by its weights, for the mode in force, and
/// that kind's lines.
pub fn tick(rng: &mut StdRng, exit_requested: bool, matrix_mode: bool) -> (r: Option<TickOutput>)
    ensures
        exit_requested <==> r is None,
        match r {
            Some(out) => tick_output_valid(out, matrix_mode),
            None => true,
        },
{
    if exit_requested {
        return None;
    }
    if matrix_mode {
        let d = draw_below(rng, 0, MATRIX_DRAWS);
        let c = matrix_category(d);
        assert(matrix_category_of(d as nat) == c);
        Some(TickOutput::Matrix(c, generate_matrix(rng, c)))
    } else {
        let d = draw_below(rng, 0, NORMAL_DRAWS);
        let c = normal_category(d);
        assert(normal_category_of(d as nat) == c);
        let timestamp = get_timestamp();
        let lines = generate_normal(rng, c, timestamp.as_str());
        let out = TickOutput::Normal(c, lines);
        assert(out->Normal_1 == lines);
        Some(out)
    }
}

} // verus!

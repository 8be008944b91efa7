//! The lines of normal mode. Each kind of line has a builder, which takes
//! the drawn values and gives the styled line exactly, and a generator,
//! which draws those values from the random stream.
use vstd::prelude::*;
use rand::rngs::StdRng;
use crate::random::{draw_below, draw_ratio};
use crate::tables::{
    SYSTEM_NAMES_LEN, SYSTEM_ACTIONS_LEN, system_names, system_actions, system_names_table,
    system_actions_table, DATABASE_OPERATIONS_LEN, database_operations, database_operations_table,
    NETWORK_ADDRESSES_LEN, network_addresses, network_addresses_table, NETWORK_PROTOCOLS_LEN,
    network_protocols, network_protocols_table, NETWORK_STATUSES_LEN, network_statuses,
    network_statuses_table, AI_MODELS_LEN, ai_models, ai_models_table, AI_TASKS_LEN, ai_tasks,
    ai_tasks_table, SECURITY_EVENTS_LEN, security_events, security_events_table, PROCESSORS_LEN,
    processors, processors_table, PROCESSING_TASKS_LEN, processing_tasks, processing_tasks_table,
};
use crate::text::{
    Color, Span, Style, line_view, plain, fg, bold, dim, plain_style, fg_style, bold_style,
    dim_style, decimal, decimal_string, push_decimal, push_char, lower_hex_digit,
    lower_hex_digits,
};

verus! {

/// Appends a span.
pub fn push_span(line: &mut Vec<Span>, text: &str, style: Style)
    ensures
        line_view(final(line)@) == line_view(old(line)@).push((text@, style)),
{
    line.push(Span::new(text, style));
    assert(line_view(line@) =~= line_view(old(line)@).push((text@, style)));
}

/// Appends a span that owns its text.
pub fn push_string_span(line: &mut Vec<Span>, text: String, style: Style)
    ensures
        line_view(final(line)@) == line_view(old(line)@).push((text@, style)),
{
    let ghost t = text@;
    line.push(Span::from_string(text, style));
    assert(line_view(line@) =~= line_view(old(line)@).push((t, style)));
}

/// Appends a span that holds a decimal numeral.
pub fn push_decimal_span(line: &mut Vec<Span>, n: u64, style: Style)
    ensures
        line_view(final(line)@) == line_view(old(line)@).push((decimal(n as nat), style)),
{
    line.push(Span::from_string(decimal_string(n), style));
    assert(line_view(line@) =~= line_view(old(line)@).push((decimal(n as nat), style)));
}

/// The opening of every normal line: the timestamp in brackets, dimmed.
pub open spec fn stamp_view(ts: Seq<char>) -> Seq<(Seq<char>, Style)> {
    seq![("["@, plain_style()), (ts, dim_style(Color::Default)), ("] "@, plain_style())]
}

fn stamped_line(timestamp: &str) -> (line: Vec<Span>)
    ensures
        line_view(line@) == stamp_view(timestamp@),
{
    let mut line: Vec<Span> = Vec::new();
    assert(line_view(line@) =~= Seq::empty());
    push_span(&mut line, "[", plain());
    push_span(&mut line, timestamp, dim(Color::Default));
    push_span(&mut line, "] ", plain());
    assert(line_view(line@) =~= stamp_view(timestamp@));
    line
}

// ---------------------------------------------------------------- system

pub open spec fn system_log_view(ts: Seq<char>, system: int, action: int, id: nat) -> Seq<
    (Seq<char>, Style),
> {
    stamp_view(ts) + seq![
        ("SYS"@, bold_style(Color::Yellow)),
        (" "@, plain_style()),
        (system_names_table()[system], fg_style(Color::Blue)),
        (" ["@, plain_style()),
        ("ID:"@ + decimal(id), fg_style(Color::Green)),
        ("] - "@, plain_style()),
        (system_actions_table()[action], plain_style()),
    ]
}

/// A system line: subsystem, numeric id, action.
pub fn system_log_line(timestamp: &str, system: u64, action: u64, id: u64) -> (line: Vec<Span>)
    requires
        system < SYSTEM_NAMES_LEN,
        action < SYSTEM_ACTIONS_LEN,
    ensures
        line_view(line@) == system_log_view(timestamp@, system as int, action as int, id as nat),
{
    let mut line = stamped_line(timestamp);
    push_span(&mut line, "SYS", bold(Color::Yellow));
    push_span(&mut line, " ", plain());
    push_span(&mut line, system_names(system), fg(Color::Blue));
    push_span(&mut line, " [", plain());
    let mut tag = String::from_str("ID:");
    push_decimal(&mut tag, id);
    push_string_span(&mut line, tag, fg(Color::Green));
    push_span(&mut line, "] - ", plain());
    push_span(&mut line, system_actions(action), plain());
    assert(line_view(line@) =~= system_log_view(timestamp@, system as int, action as int, id as nat));
    line
}

/// The lines that `generate_system_log` may give.
pub open spec fn system_log_lines(ts: Seq<char>, lines: Seq<Vec<Span>>) -> bool {
    &&& lines.len() == 1
    &&& exists|system: int, action: int, id: nat|
            0 <= system < SYSTEM_NAMES_LEN && 0 <= action < SYSTEM_ACTIONS_LEN && 1 <= id < 9999
                && line_view(lines[0]@) == #[trigger] system_log_view(ts, system, action, id)
}

/// Draws a subsystem, an action and an id in `[1, 9999)`.
pub fn generate_system_log(rng: &mut StdRng, timestamp: &str) -> (lines: Vec<Vec<Span>>)
    ensures
        system_log_lines(timestamp@, lines@),
{
    let system = draw_below(rng, 0, SYSTEM_NAMES_LEN);
    let action = draw_below(rng, 0, SYSTEM_ACTIONS_LEN);
    let id = draw_below(rng, 1, 9999);
    let line = system_log_line(timestamp, system, action, id);
    let lines = vec![line];
    assert(line_view(lines@[0]@) == system_log_view(timestamp@, system as int, action as int, id as nat));
    lines
}

// -------------------------------------------------------------- database

pub open spec fn database_log_view(ts: Seq<char>, rows: nat, millis: nat) -> Seq<(Seq<char>, Style)> {
    stamp_view(ts) + seq![
        ("DB"@, bold_style(Color::Purple)),
        (" "@, plain_style()),
        ("QUERY_ENGINE"@, fg_style(Color::Cyan)),
        (" - "@, plain_style()),
        (decimal(rows), fg_style(Color::Yellow)),
        (" rows affected ("@, plain_style()),
        (decimal(millis), plain_style()),
        ("ms)"@, plain_style()),
    ]
}

pub open spec fn database_detail_view(operation: int) -> Seq<(Seq<char>, Style)> {
    seq![
        ("    └─ "@, plain_style()),
        (database_operations_table()[operation], fg_style(Color::BrightWhite)),
    ]
}

/// A database line: rows affected and time taken.
pub fn database_log_line(timestamp: &str, rows: u64, millis: u64) -> (line: Vec<Span>)
    ensures
        line_view(line@) == database_log_view(timestamp@, rows as nat, millis as nat),
{
    let mut line = stamped_line(timestamp);
    push_span(&mut line, "DB", bold(Color::Purple));
    push_span(&mut line, " ", plain());
    push_span(&mut line, "QUERY_ENGINE", fg(Color::Cyan));
    push_span(&mut line, " - ", plain());
    push_decimal_span(&mut line, rows, fg(Color::Yellow));
    push_span(&mut line, " rows affected (", plain());
    push_decimal_span(&mut line, millis, plain());
    push_span(&mut line, "ms)", plain());
    assert(line_view(line@) =~= database_log_view(timestamp@, rows as nat, millis as nat));
    line
}

/// The query under a database line.
pub fn database_detail_line(operation: u64) -> (line: Vec<Span>)
    requires
        operation < DATABASE_OPERATIONS_LEN,
    ensures
        line_view(line@) == database_detail_view(operation as int),
{
    let mut line: Vec<Span> = Vec::new();
    assert(line_view(line@) =~= Seq::empty());
    push_span(&mut line, "    └─ ", plain());
    push_span(&mut line, database_operations(operation), fg(Color::BrightWhite));
    assert(line_view(line@) =~= database_detail_view(operation as int));
    line
}

/// The lines that `generate_database_log` may give.
pub open spec fn database_log_lines(ts: Seq<char>, lines: Seq<Vec<Span>>) -> bool {
    &&& lines.len() == 2
    &&& exists|rows: nat, millis: nat|
            1 <= rows < 50000 && 1 <= millis < 999 && line_view(lines[0]@)
                == #[trigger] database_log_view(ts, rows, millis)
    &&& exists|operation: int|
            0 <= operation < DATABASE_OPERATIONS_LEN && line_view(lines[1]@)
                == #[trigger] database_detail_view(operation)
}

/// Draws a query, a row count in `[1, 50000)` and a time in `[1, 999)`.
pub fn generate_database_log(rng: &mut StdRng, timestamp: &str) -> (lines: Vec<Vec<Span>>)
    ensures
        database_log_lines(timestamp@, lines@),
{
    let operation = draw_below(rng, 0, DATABASE_OPERATIONS_LEN);
    let rows = draw_below(rng, 1, 50000);
    let millis = draw_below(rng, 1, 999);
    let lines = vec![database_log_line(timestamp, rows, millis), database_detail_line(operation)];
    assert(line_view(lines@[0]@) == database_log_view(timestamp@, rows as nat, millis as nat));
    assert(line_view(lines@[1]@) == database_detail_view(operation as int));
    lines
}

// --------------------------------------------------------------- network

pub open spec fn network_log_view(
    ts: Seq<char>,
    address: int,
    port: nat,
    protocol: int,
    status: int,
    bytes: nat,
) -> Seq<(Seq<char>, Style)> {
    stamp_view(ts) + seq![
        ("NET"@, bold_style(Color::Green)),
        (" "@, plain_style()),
        (network_addresses_table()[address], fg_style(Color::BrightCyan)),
        (":"@, plain_style()),
        (decimal(port), plain_style()),
        (" "@, plain_style()),
        (network_protocols_table()[protocol], fg_style(Color::Magenta)),
        (" "@, plain_style()),
        (network_statuses_table()[status], fg_style(Color::Green)),
        (" - "@, plain_style()),
        (decimal(bytes), fg_style(Color::Yellow)),
        (" bytes"@, plain_style()),
    ]
}

/// A network line: address and port, protocol, status, size.
pub fn network_log_line(
    timestamp: &str,
    address: u64,
    port: u64,
    protocol: u64,
    status: u64,
    bytes: u64,
) -> (line: Vec<Span>)
    requires
        address < NETWORK_ADDRESSES_LEN,
        protocol < NETWORK_PROTOCOLS_LEN,
        status < NETWORK_STATUSES_LEN,
    ensures
        line_view(line@) == network_log_view(
            timestamp@,
            address as int,
            port as nat,
            protocol as int,
            status as int,
            bytes as nat,
        ),
{
    let mut line = stamped_line(timestamp);
    push_span(&mut line, "NET", bold(Color::Green));
    push_span(&mut line, " ", plain());
    push_span(&mut line, network_addresses(address), fg(Color::BrightCyan));
    push_span(&mut line, ":", plain());
    push_decimal_span(&mut line, port, plain());
    push_span(&mut line, " ", plain());
    push_span(&mut line, network_protocols(protocol), fg(Color::Magenta));
    push_span(&mut line, " ", plain());
    push_span(&mut line, network_statuses(status), fg(Color::Green));
    push_span(&mut line, " - ", plain());
    push_decimal_span(&mut line, bytes, fg(Color::Yellow));
    push_span(&mut line, " bytes", plain());
    assert(line_view(line@) =~= network_log_view(
        timestamp@,
        address as int,
        port as nat,
        protocol as int,
        status as int,
        bytes as nat,
    ));
    line
}

/// The lines that `generate_network_log` may give.
pub open spec fn network_log_lines(ts: Seq<char>, lines: Seq<Vec<Span>>) -> bool {
    &&& lines.len() == 1
    &&& exists|address: int, port: nat, protocol: int, status: int, bytes: nat|
            0 <= address < NETWORK_ADDRESSES_LEN && 8000 <= port < 9999 && 0 <= protocol
                < NETWORK_PROTOCOLS_LEN && 0 <= status < NETWORK_STATUSES_LEN && 1024 <= bytes
                < 1048576 && line_view(lines[0]@) == #[trigger] network_log_view(
                ts,
                address,
                port,
                protocol,
                status,
                bytes,
            )
}

/// Draws an address, a protocol, a status, a size in `[1024, 1048576)` and
/// a port in `[8000, 9999)`.
pub fn generate_network_log(rng: &mut StdRng, timestamp: &str) -> (lines: Vec<Vec<Span>>)
    ensures
        network_log_lines(timestamp@, lines@),
{
    let address = draw_below(rng, 0, NETWORK_ADDRESSES_LEN);
    let protocol = draw_below(rng, 0, NETWORK_PROTOCOLS_LEN);
    let status = draw_below(rng, 0, NETWORK_STATUSES_LEN);
    let bytes = draw_below(rng, 1024, 1048576);
    let port = draw_below(rng, 8000, 9999);
    let lines = vec![network_log_line(timestamp, address, port, protocol, status, bytes)];
    assert(line_view(lines@[0]@) == network_log_view(
        timestamp@,
        address as int,
        port as nat,
        protocol as int,
        status as int,
        bytes as nat,
    ));
    lines
}

// -------------------------------------------------------------------- AI

pub open spec fn ai_log_view(ts: Seq<char>, model: int, task: int, accuracy: nat) -> Seq<
    (Seq<char>, Style),
> {
    stamp_view(ts) + seq![
        ("AI"@, bold_style(Color::BrightMagenta)),
        (" "@, plain_style()),
        (ai_models_table()[model], fg_style(Color::BrightBlue)),
        (" - "@, plain_style()),
        (ai_tasks_table()[task], plain_style()),
        (" (Accuracy: "@, plain_style()),
        (decimal(accuracy / 100), fg_style(Color::BrightGreen)),
        ("%)"@, plain_style()),
    ]
}

/// An AI line: model, task and accuracy. The accuracy is drawn in
/// hundredths of a percent and shown as its whole percent.
pub fn ai_log_line(timestamp: &str, model: u64, task: u64, accuracy: u64) -> (line: Vec<Span>)
    requires
        model < AI_MODELS_LEN,
        task < AI_TASKS_LEN,
    ensures
        line_view(line@) == ai_log_view(timestamp@, model as int, task as int, accuracy as nat),
{
    let mut line = stamped_line(timestamp);
    push_span(&mut line, "AI", bold(Color::BrightMagenta));
    push_span(&mut line, " ", plain());
    push_span(&mut line, ai_models(model), fg(Color::BrightBlue));
    push_span(&mut line, " - ", plain());
    push_span(&mut line, ai_tasks(task), plain());
    push_span(&mut line, " (Accuracy: ", plain());
    push_decimal_span(&mut line, accuracy / 100, fg(Color::BrightGreen));
    push_span(&mut line, "%)", plain());
    assert(line_view(line@) =~= ai_log_view(timestamp@, model as int, task as int, accuracy as nat));
    line
}

/// The lines that `generate_ai_log` may give.
pub open spec fn ai_log_lines(ts: Seq<char>, lines: Seq<Vec<Span>>) -> bool {
    &&& lines.len() == 1
    &&& exists|model: int, task: int, accuracy: nat|
            0 <= model < AI_MODELS_LEN && 0 <= task < AI_TASKS_LEN && 8500 <= accuracy < 9999
                && line_view(lines[0]@) == #[trigger] ai_log_view(ts, model, task, accuracy)
}

/// Draws a model, a task and an accuracy in `[8500, 9999)` hundredths.
pub fn generate_ai_log(rng: &mut StdRng, timestamp: &str) -> (lines: Vec<Vec<Span>>)
    ensures
        ai_log_lines(timestamp@, lines@),
{
    let model = draw_below(rng, 0, AI_MODELS_LEN);
    let task = draw_below(rng, 0, AI_TASKS_LEN);
    let accuracy = draw_below(rng, 8500, 9999);
    let lines = vec![ai_log_line(timestamp, model, task, accuracy)];
    assert(line_view(lines@[0]@) == ai_log_view(timestamp@, model as int, task as int, accuracy as nat));
    lines
}

// -------------------------------------------------------------- security

/// `s` is `n` characters, each one of `digits`.
pub open spec fn drawn_from(s: Seq<char>, n: nat, digits: Seq<char>) -> bool {
    &&& s.len() == n
    &&& forall|i: int| 0 <= i < s.len() ==> digits.contains(#[trigger] s[i])
}

/// A hash-like string: 64 lower-case hexadecimal digits.
pub fn generate_hash(rng: &mut StdRng) -> (r: String)
    ensures
        drawn_from(r@, 64, lower_hex_digits()),
{
    let mut s = String::new();
    let mut i: u64 = 0;
    while i < 64
        invariant
            i <= 64,
            drawn_from(s@, i as nat, lower_hex_digits()),
        decreases 64 - i,
    {
        let d = draw_below(rng, 0, 16);
        let c = lower_hex_digit(d);
        let ghost before = s@;
        push_char(&mut s, c);
        proof {
            reveal_strlit("0123456789abcdef");
            assert(lower_hex_digits().contains(c));
            assert forall|k: int| 0 <= k < s@.len() implies lower_hex_digits().contains(
                #[trigger] s@[k],
            ) by {
                if k < before.len() {
                    assert(s@[k] == before[k]);
                }
            }
        }
        i = i + 1;
    }
    s
}

pub open spec fn security_log_view(ts: Seq<char>, event: int) -> Seq<(Seq<char>, Style)> {
    stamp_view(ts) + seq![
        ("SEC"@, bold_style(Color::Red)),
        (" "@, plain_style()),
        ("CRYPTO_ENGINE"@, fg_style(Color::BrightYellow)),
        (" - SHA256: "@, plain_style()),
        (security_events_table()[event], plain_style()),
    ]
}

pub open spec fn security_hash_view(hash: Seq<char>) -> Seq<(Seq<char>, Style)> {
    seq![("    └─ Hash: "@, plain_style()), (hash, fg_style(Color::BrightBlack))]
}

/// A security line: the event.
pub fn security_log_line(timestamp: &str, event: u64) -> (line: Vec<Span>)
    requires
        event < SECURITY_EVENTS_LEN,
    ensures
        line_view(line@) == security_log_view(timestamp@, event as int),
{
    let mut line = stamped_line(timestamp);
    push_span(&mut line, "SEC", bold(Color::Red));
    push_span(&mut line, " ", plain());
    push_span(&mut line, "CRYPTO_ENGINE", fg(Color::BrightYellow));
    push_span(&mut line, " - SHA256: ", plain());
    push_span(&mut line, security_events(event), plain());
    assert(line_view(line@) =~= security_log_view(timestamp@, event as int));
    line
}

/// The hash under a security line.
pub fn security_hash_line(hash: String) -> (line: Vec<Span>)
    ensures
        line_view(line@) == security_hash_view(hash@),
{
    let mut line: Vec<Span> = Vec::new();
    assert(line_view(line@) =~= Seq::empty());
    push_span(&mut line, "    └─ Hash: ", plain());
    push_string_span(&mut line, hash, fg(Color::BrightBlack));
    assert(line_view(line@) =~= security_hash_view(hash@));
    line
}

/// The lines that `generate_security_log` may give.
pub open spec fn security_log_lines(ts: Seq<char>, lines: Seq<Vec<Span>>) -> bool {
    &&& lines.len() == 2
    &&& exists|event: int|
            0 <= event < SECURITY_EVENTS_LEN && line_view(lines[0]@) == #[trigger] security_log_view(
                ts,
                event,
            )
    &&& exists|hash: Seq<char>|
            drawn_from(hash, 64, lower_hex_digits()) && line_view(lines[1]@)
                == #[trigger] security_hash_view(hash)
}

/// Draws an event and a hash.
pub fn generate_security_log(rng: &mut StdRng, timestamp: &str) -> (lines: Vec<Vec<Span>>)
    ensures
        security_log_lines(timestamp@, lines@),
{
    let event = draw_below(rng, 0, SECURITY_EVENTS_LEN);
    let hash = generate_hash(rng);
    let ghost h = hash@;
    let lines = vec![security_log_line(timestamp, event), security_hash_line(hash)];
    assert(line_view(lines@[0]@) == security_log_view(timestamp@, event as int));
    assert(line_view(lines@[1]@) == security_hash_view(h));
    lines
}

// ------------------------------------------------------------ processing

/// Of `items`, how many a progress of `progress` percent has done.
pub open spec fn items_done(items: nat, progress: nat) -> nat {
    (items - items * (100 - progress) / 100) as nat
}

pub open spec fn processing_log_view(
    ts: Seq<char>,
    processor: int,
    task: int,
    progress: nat,
    items: nat,
) -> Seq<(Seq<char>, Style)> {
    stamp_view(ts) + seq![
        ("PROC"@, bold_style(Color::BrightCyan)),
        (" "@, plain_style()),
        (processors_table()[processor], fg_style(Color::Magenta)),
        (" - "@, plain_style()),
        (processing_tasks_table()[task], plain_style()),
        (" ["@, plain_style()),
        (decimal(items_done(items, progress)), plain_style()),
        ("/"@, plain_style()),
        (decimal(items), fg_style(Color::Yellow)),
        ("] ("@, plain_style()),
        (decimal(progress), fg_style(Color::BrightGreen)),
        ("%)"@, plain_style()),
    ]
}

/// One cell of the progress bar under a processing line.
pub open spec fn progress_cell(i: nat, progress: nat) -> (Seq<char>, Style) {
    if i < progress * 20 / 100 {
        ("█"@, fg_style(Color::Green))
    } else {
        ("░"@, dim_style(Color::Default))
    }
}

pub open spec fn progress_bar_view(progress: nat) -> Seq<(Seq<char>, Style)> {
    seq![("    └─ ["@, plain_style())] + Seq::new(20, |i: int| progress_cell(i as nat, progress))
        + seq![("]"@, plain_style())]
}

/// A processing line: processor, task, items done of all, progress.
pub fn processing_log_line(
    timestamp: &str,
    processor: u64,
    task: u64,
    progress: u64,
    items: u64,
) -> (line: Vec<Span>)
    requires
        processor < PROCESSORS_LEN,
        task < PROCESSING_TASKS_LEN,
        progress <= 100,
        items < 1000000,
    ensures
        line_view(line@) == processing_log_view(
            timestamp@,
            processor as int,
            task as int,
            progress as nat,
            items as nat,
        ),
{
    let mut line = stamped_line(timestamp);
    push_span(&mut line, "PROC", bold(Color::BrightCyan));
    push_span(&mut line, " ", plain());
    push_span(&mut line, processors(processor), fg(Color::Magenta));
    push_span(&mut line, " - ", plain());
    push_span(&mut line, processing_tasks(task), plain());
    push_span(&mut line, " [", plain());
    assert(items * (100 - progress) <= items * 100) by (nonlinear_arith)
        requires
            progress <= 100,
    ;
    assert(items * (100 - progress) / 100 <= items) by (nonlinear_arith)
        requires
            items * (100 - progress) <= items * 100,
    ;
    let done = items - items * (100 - progress) / 100;
    push_decimal_span(&mut line, done, plain());
    push_span(&mut line, "/", plain());
    push_decimal_span(&mut line, items, fg(Color::Yellow));
    push_span(&mut line, "] (", plain());
    push_decimal_span(&mut line, progress, fg(Color::BrightGreen));
    push_span(&mut line, "%)", plain());
    assert(line_view(line@) =~= processing_log_view(
        timestamp@,
        processor as int,
        task as int,
        progress as nat,
        items as nat,
    ));
    line
}

/// The progress bar: twenty cells, one filled for each full five percent
/// of progress.
pub fn progress_bar_line(progress: u64) -> (line: Vec<Span>)
    requires
        progress <= 100,
    ensures
        line_view(line@) == progress_bar_view(progress as nat),
{
    let mut line: Vec<Span> = Vec::new();
    assert(line_view(line@) =~= Seq::empty());
    push_span(&mut line, "    └─ [", plain());
    let filled = progress * 20 / 100;
    let mut i: u64 = 0;
    while i < 20
        invariant
            i <= 20,
            filled == progress * 20 / 100,
            line_view(line@) =~= seq![("    └─ ["@, plain_style())] + Seq::new(
                i as nat,
                |k: int| progress_cell(k as nat, progress as nat),
            ),
        decreases 20 - i,
    {
        if i < filled {
            push_span(&mut line, "█", fg(Color::Green));
        } else {
            push_span(&mut line, "░", dim(Color::Default));
        }
        i = i + 1;
    }
    push_span(&mut line, "]", plain());
    assert(line_view(line@) =~= progress_bar_view(progress as nat));
    line
}

/// The lines that `generate_processing_log` may give.
pub open spec fn processing_log_lines(ts: Seq<char>, lines: Seq<Vec<Span>>) -> bool {
    &&& 1 <= lines.len() <= 2
    &&& exists|processor: int, task: int, progress: nat, items: nat|
            0 <= processor < PROCESSORS_LEN && 0 <= task < PROCESSING_TASKS_LEN && 1 <= progress
                < 100 && 1000 <= items < 999999 && line_view(lines[0]@)
                == #[trigger] processing_log_view(ts, processor, task, progress, items)
                && (lines.len() == 2 ==> line_view(lines[1]@) == progress_bar_view(progress))
}

/// Draws a processor, a task, a progress in `[1, 100)` percent and an item
/// count in `[1000, 999999)`; three times in ten a progress bar follows.
pub fn generate_processing_log(rng: &mut StdRng, timestamp: &str) -> (lines: Vec<Vec<Span>>)
    ensures
        processing_log_lines(timestamp@, lines@),
{
    let processor = draw_below(rng, 0, PROCESSORS_LEN);
    let task = draw_below(rng, 0, PROCESSING_TASKS_LEN);
    let progress = draw_below(rng, 1, 100);
    let items = draw_below(rng, 1000, 999999);
    let mut lines = vec![processing_log_line(timestamp, processor, task, progress, items)];
    if draw_ratio(rng, 3, 10) {
        lines.push(progress_bar_line(progress));
    }
    assert(line_view(lines@[0]@) == processing_log_view(
        timestamp@,
        processor as int,
        task as int,
        progress as nat,
        items as nat,
    ));
    lines
}

} // verus!

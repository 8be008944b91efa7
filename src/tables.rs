//! The fixed word tables of the generated lines. Each table is a spec
//! sequence and an executable lookup that agrees with it.
use vstd::prelude::*;

verus! {

pub open spec fn system_names_table() -> Seq<Seq<char>> {
    seq![
        "CPU_CORE_MANAGER"@,
        "MEMORY_ALLOCATOR"@,
        "DISK_OPTIMIZER"@,
        "THREAD_SCHEDULER"@,
        "CACHE_CONTROLLER"@,
        "HEAP_ANALYZER"@,
    ]
}

pub const SYSTEM_NAMES_LEN: u64 = 6;

/// Subsystems named in system log lines.
pub fn system_names(i: u64) -> (r: &'static str)
    requires
        i < SYSTEM_NAMES_LEN,
    ensures
        r@ == system_names_table()[i as int],
{
    match i {
        0 => "CPU_CORE_MANAGER",
        1 => "MEMORY_ALLOCATOR",
        2 => "DISK_OPTIMIZER",
        3 => "THREAD_SCHEDULER",
        4 => "CACHE_CONTROLLER",
        _ => "HEAP_ANALYZER",
    }
}

pub open spec fn system_actions_table() -> Seq<Seq<char>> {
    seq![
        "Optimizing memory allocation"@,
        "Garbage collection cycle completed"@,
        "Cache coherency validated"@,
        "Thread pool rebalanced"@,
        "Memory defragmentation in progress"@,
        "CPU affinity updated"@,
    ]
}

pub const SYSTEM_ACTIONS_LEN: u64 = 6;

/// Actions reported in system log lines.
pub fn system_actions(i: u64) -> (r: &'static str)
    requires
        i < SYSTEM_ACTIONS_LEN,
    ensures
        r@ == system_actions_table()[i as int],
{
    match i {
        0 => "Optimizing memory allocation",
        1 => "Garbage collection cycle completed",
        2 => "Cache coherency validated",
        3 => "Thread pool rebalanced",
        4 => "Memory defragmentation in progress",
        _ => "CPU affinity updated",
    }
}

pub open spec fn database_operations_table() -> Seq<Seq<char>> {
    seq![
        "SELECT * FROM neural_networks WHERE efficiency > 0.95"@,
        "UPDATE machine_learning_models SET accuracy = 99.7%"@,
        "INSERT INTO quantum_calculations VALUES (42, 'completed')"@,
        "OPTIMIZE TABLE blockchain_transactions"@,
        "VACUUM ANALYZE user_behavior_patterns"@,
        "REINDEX cryptocurrency_ledger"@,
    ]
}

pub const DATABASE_OPERATIONS_LEN: u64 = 6;

/// Queries shown under database log lines.
pub fn database_operations(i: u64) -> (r: &'static str)
    requires
        i < DATABASE_OPERATIONS_LEN,
    ensures
        r@ == database_operations_table()[i as int],
{
    match i {
        0 => "SELECT * FROM neural_networks WHERE efficiency > 0.95",
        1 => "UPDATE machine_learning_models SET accuracy = 99.7%",
        2 => "INSERT INTO quantum_calculations VALUES (42, 'completed')",
        3 => "OPTIMIZE TABLE blockchain_transactions",
        4 => "VACUUM ANALYZE user_behavior_patterns",
        _ => "REINDEX cryptocurrency_ledger",
    }
}

pub open spec fn network_addresses_table() -> Seq<Seq<char>> {
    seq![
        "192.168.1.100"@,
        "10.0.0.42"@,
        "172.16.255.1"@,
        "203.45.67.89"@,
        "91.198.174.192"@,
        "8.8.8.8"@,
    ]
}

pub const NETWORK_ADDRESSES_LEN: u64 = 6;

/// Addresses in network log lines.
pub fn network_addresses(i: u64) -> (r: &'static str)
    requires
        i < NETWORK_ADDRESSES_LEN,
    ensures
        r@ == network_addresses_table()[i as int],
{
    match i {
        0 => "192.168.1.100",
        1 => "10.0.0.42",
        2 => "172.16.255.1",
        3 => "203.45.67.89",
        4 => "91.198.174.192",
        _ => "8.8.8.8",
    }
}

pub open spec fn network_protocols_table() -> Seq<Seq<char>> {
    seq![
        "HTTPS"@,
        "WSS"@,
        "TCP"@,
        "UDP"@,
        "SSH"@,
    ]
}

pub const NETWORK_PROTOCOLS_LEN: u64 = 5;

/// Protocols in network log lines.
pub fn network_protocols(i: u64) -> (r: &'static str)
    requires
        i < NETWORK_PROTOCOLS_LEN,
    ensures
        r@ == network_protocols_table()[i as int],
{
    match i {
        0 => "HTTPS",
        1 => "WSS",
        2 => "TCP",
        3 => "UDP",
        _ => "SSH",
    }
}

pub open spec fn network_statuses_table() -> Seq<Seq<char>> {
    seq![
        "200 OK"@,
        "201 CREATED"@,
        "304 NOT_MODIFIED"@,
        "100 CONTINUE"@,
    ]
}

pub const NETWORK_STATUSES_LEN: u64 = 4;

/// Statuses in network log lines.
pub fn network_statuses(i: u64) -> (r: &'static str)
    requires
        i < NETWORK_STATUSES_LEN,
    ensures
        r@ == network_statuses_table()[i as int],
{
    match i {
        0 => "200 OK",
        1 => "201 CREATED",
        2 => "304 NOT_MODIFIED",
        _ => "100 CONTINUE",
    }
}

pub open spec fn ai_models_table() -> Seq<Seq<char>> {
    seq![
        "NEURAL_TRANSFORMER_V3"@,
        "DEEP_LEARNING_CORE"@,
        "ML_PREDICTOR"@,
        "COGNITIVE_PROCESSOR"@,
        "PATTERN_RECOGNITION"@,
        "SENTIMENT_ANALYZER"@,
    ]
}

pub const AI_MODELS_LEN: u64 = 6;

/// Models named in AI log lines.
pub fn ai_models(i: u64) -> (r: &'static str)
    requires
        i < AI_MODELS_LEN,
    ensures
        r@ == ai_models_table()[i as int],
{
    match i {
        0 => "NEURAL_TRANSFORMER_V3",
        1 => "DEEP_LEARNING_CORE",
        2 => "ML_PREDICTOR",
        3 => "COGNITIVE_PROCESSOR",
        4 => "PATTERN_RECOGNITION",
        _ => "SENTIMENT_ANALYZER",
    }
}

pub open spec fn ai_tasks_table() -> Seq<Seq<char>> {
    seq![
        "Training epoch 127/200 completed"@,
        "Feature extraction pipeline optimized"@,
        "Model convergence achieved"@,
        "Hyperparameter tuning in progress"@,
        "Cross-validation scores calculated"@,
        "Inference batch processed"@,
    ]
}

pub const AI_TASKS_LEN: u64 = 6;

/// Tasks reported in AI log lines.
pub fn ai_tasks(i: u64) -> (r: &'static str)
    requires
        i < AI_TASKS_LEN,
    ensures
        r@ == ai_tasks_table()[i as int],
{
    match i {
        0 => "Training epoch 127/200 completed",
        1 => "Feature extraction pipeline optimized",
        2 => "Model convergence achieved",
        3 => "Hyperparameter tuning in progress",
        4 => "Cross-validation scores calculated",
        _ => "Inference batch processed",
    }
}

pub open spec fn security_events_table() -> Seq<Seq<char>> {
    seq![
        "Encrypted communication channel established"@,
        "Firewall rules updated successfully"@,
        "Intrusion detection scan completed"@,
        "Certificate authority validation passed"@,
        "Secure hash verification completed"@,
        "Two-factor authentication processed"@,
    ]
}

pub const SECURITY_EVENTS_LEN: u64 = 6;

/// Events reported in security log lines.
pub fn security_events(i: u64) -> (r: &'static str)
    requires
        i < SECURITY_EVENTS_LEN,
    ensures
        r@ == security_events_table()[i as int],
{
    match i {
        0 => "Encrypted communication channel established",
        1 => "Firewall rules updated successfully",
        2 => "Intrusion detection scan completed",
        3 => "Certificate authority validation passed",
        4 => "Secure hash verification completed",
        _ => "Two-factor authentication processed",
    }
}

pub open spec fn processors_table() -> Seq<Seq<char>> {
    seq![
        "DATA_PIPELINE"@,
        "STREAM_PROCESSOR"@,
        "BATCH_ANALYZER"@,
        "REAL_TIME_ENGINE"@,
        "ETL_FRAMEWORK"@,
        "AGGREGATION_SERVICE"@,
    ]
}

pub const PROCESSORS_LEN: u64 = 6;

/// Processors named in processing log lines.
pub fn processors(i: u64) -> (r: &'static str)
    requires
        i < PROCESSORS_LEN,
    ensures
        r@ == processors_table()[i as int],
{
    match i {
        0 => "DATA_PIPELINE",
        1 => "STREAM_PROCESSOR",
        2 => "BATCH_ANALYZER",
        3 => "REAL_TIME_ENGINE",
        4 => "ETL_FRAMEWORK",
        _ => "AGGREGATION_SERVICE",
    }
}

pub open spec fn processing_tasks_table() -> Seq<Seq<char>> {
    seq![
        "Processing quantum entanglement calculations"@,
        "Analyzing cryptocurrency market trends"@,
        "Optimizing blockchain consensus algorithm"@,
        "Decrypting alien transmission signals"@,
        "Simulating parallel universe outcomes"@,
        "Computing meaning of life subroutines"@,
    ]
}

pub const PROCESSING_TASKS_LEN: u64 = 6;

/// Tasks reported in processing log lines.
pub fn processing_tasks(i: u64) -> (r: &'static str)
    requires
        i < PROCESSING_TASKS_LEN,
    ensures
        r@ == processing_tasks_table()[i as int],
{
    match i {
        0 => "Processing quantum entanglement calculations",
        1 => "Analyzing cryptocurrency market trends",
        2 => "Optimizing blockchain consensus algorithm",
        3 => "Decrypting alien transmission signals",
        4 => "Simulating parallel universe outcomes",
        _ => "Computing meaning of life subroutines",
    }
}

pub open spec fn matrix_systems_table() -> Seq<Seq<char>> {
    seq![
        "NEURAL.NET.CORE_01"@,
        "MATRIX.SYS.PROCESS"@,
        "ZION.MAINFRAME.ACCESS"@,
        "NEO.USER.TERMINAL"@,
        "MORPHEUS.GUIDE.PROTO"@,
        "TRINITY.HACK.MODULE"@,
        "AGENT.SMITH.TRACE"@,
        "ORACLE.PREDICT.SYS"@,
        "ARCHITECT.CORE.DESIGN"@,
    ]
}

pub const MATRIX_SYSTEMS_LEN: u64 = 9;

/// Systems named in matrix status lines.
pub fn matrix_systems(i: u64) -> (r: &'static str)
    requires
        i < MATRIX_SYSTEMS_LEN,
    ensures
        r@ == matrix_systems_table()[i as int],
{
    match i {
        0 => "NEURAL.NET.CORE_01",
        1 => "MATRIX.SYS.PROCESS",
        2 => "ZION.MAINFRAME.ACCESS",
        3 => "NEO.USER.TERMINAL",
        4 => "MORPHEUS.GUIDE.PROTO",
        5 => "TRINITY.HACK.MODULE",
        6 => "AGENT.SMITH.TRACE",
        7 => "ORACLE.PREDICT.SYS",
        _ => "ARCHITECT.CORE.DESIGN",
    }
}

pub open spec fn matrix_codes_table() -> Seq<Seq<char>> {
    seq![
        "0x7F4A9E2D"@,
        "0xDEADBEEF"@,
        "0xCAFEBABE"@,
        "0x1337H4CK"@,
        "0xFF00FF00"@,
        "0xC0FFEE42"@,
        "0xFACEFEED"@,
        "0xB00B1E5"@,
    ]
}

pub const MATRIX_CODES_LEN: u64 = 8;

/// Codes in matrix status lines.
pub fn matrix_codes(i: u64) -> (r: &'static str)
    requires
        i < MATRIX_CODES_LEN,
    ensures
        r@ == matrix_codes_table()[i as int],
{
    match i {
        0 => "0x7F4A9E2D",
        1 => "0xDEADBEEF",
        2 => "0xCAFEBABE",
        3 => "0x1337H4CK",
        4 => "0xFF00FF00",
        5 => "0xC0FFEE42",
        6 => "0xFACEFEED",
        _ => "0xB00B1E5",
    }
}

pub open spec fn matrix_data_types_table() -> Seq<Seq<char>> {
    seq![
        "ENCRYPTED_STREAM"@,
        "BINARY_PACKET"@,
        "NEURAL_PATTERN"@,
        "MEMORY_BLOCK"@,
        "CODE_INJECTION"@,
        "DATA_FRAGMENT"@,
    ]
}

pub const MATRIX_DATA_TYPES_LEN: u64 = 6;

/// Kinds of data in matrix data lines.
pub fn matrix_data_types(i: u64) -> (r: &'static str)
    requires
        i < MATRIX_DATA_TYPES_LEN,
    ensures
        r@ == matrix_data_types_table()[i as int],
{
    match i {
        0 => "ENCRYPTED_STREAM",
        1 => "BINARY_PACKET",
        2 => "NEURAL_PATTERN",
        3 => "MEMORY_BLOCK",
        4 => "CODE_INJECTION",
        _ => "DATA_FRAGMENT",
    }
}

pub open spec fn matrix_nodes_table() -> Seq<Seq<char>> {
    seq![
        "NEURAL_NODE"@,
        "SYNAPSE_LINK"@,
        "CORTEX_PATH"@,
        "BRAIN_WAVE"@,
        "MIND_BRIDGE"@,
        "THOUGHT_STREAM"@,
        "MEMORY_TRACE"@,
        "DREAM_STATE"@,
    ]
}

pub const MATRIX_NODES_LEN: u64 = 8;

/// Nodes in matrix neural lines.
pub fn matrix_nodes(i: u64) -> (r: &'static str)
    requires
        i < MATRIX_NODES_LEN,
    ensures
        r@ == matrix_nodes_table()[i as int],
{
    match i {
        0 => "NEURAL_NODE",
        1 => "SYNAPSE_LINK",
        2 => "CORTEX_PATH",
        3 => "BRAIN_WAVE",
        4 => "MIND_BRIDGE",
        5 => "THOUGHT_STREAM",
        6 => "MEMORY_TRACE",
        _ => "DREAM_STATE",
    }
}

pub open spec fn matrix_phrases_table() -> Seq<Seq<char>> {
    seq![
        "WAKE UP, NEO..."@,
        "FOLLOW THE WHITE RABBIT"@,
        "THERE IS NO SPOON"@,
        "FREE YOUR MIND"@,
        "WELCOME TO THE REAL WORLD"@,
        "IGNORANCE IS BLISS"@,
        "CHOICE IS AN ILLUSION"@,
        "WHAT IS REAL?"@,
        "DOWN THE RABBIT HOLE"@,
        "RED PILL OR BLUE PILL?"@,
    ]
}

pub const MATRIX_PHRASES_LEN: u64 = 10;

/// Phrases of the rare matrix messages.
pub fn matrix_phrases(i: u64) -> (r: &'static str)
    requires
        i < MATRIX_PHRASES_LEN,
    ensures
        r@ == matrix_phrases_table()[i as int],
{
    match i {
        0 => "WAKE UP, NEO...",
        1 => "FOLLOW THE WHITE RABBIT",
        2 => "THERE IS NO SPOON",
        3 => "FREE YOUR MIND",
        4 => "WELCOME TO THE REAL WORLD",
        5 => "IGNORANCE IS BLISS",
        6 => "CHOICE IS AN ILLUSION",
        7 => "WHAT IS REAL?",
        8 => "DOWN THE RABBIT HOLE",
        _ => "RED PILL OR BLUE PILL?",
    }
}

} // verus!

//! The store's common wire vocabulary: the status object that accompanies
//! every response, the closed set of error codes the store is known to
//! report, message-type tags for request envelopes, and consistency levels.
//!
//! The numeric values assigned to codes, message types and consistency
//! levels are part of the store's fixed wire contract; they are kept in one
//! place here so every other module speaks of the symbolic names only.

use vstd::prelude::*;

verus! {

/// Outcome indicator carried by every response from the store: a numeric
/// error code plus a human-readable diagnostic string.
#[derive(Debug, Clone, PartialEq, Eq)]
pub struct Status {
    pub error_code: i32,
    pub reason: String,
}

/// The error codes the store is known to report. `Success` is the sole
/// success sentinel; every other recognized code marks a server-side failure.
#[derive(Debug, Clone, Copy, PartialEq, Eq)]
pub enum ErrorCode {
    Success,
    UnexpectedError,
    ConnectFailed,
    PermissionDenied,
    CollectionNotExists,
    IllegalArgument,
    IllegalDimension,
    IllegalIndexType,
    IllegalCollectionName,
    IllegalTopk,
    IllegalRowRecord,
    IllegalVectorId,
    IllegalSearchResult,
    FileNotFound,
    MetaFailed,
    CacheFailed,
    CannotCreateFolder,
    CannotCreateFile,
    CannotDeleteFolder,
    CannotDeleteFile,
    BuildIndexError,
    IllegalNlist,
    IllegalMetricType,
    OutOfMemory,
    IndexNotExist,
    EmptyCollection,
}

/// The wire value of each recognized error code.
pub open spec fn error_code_value(c: ErrorCode) -> int {
    match c {
        ErrorCode::Success => 0,
        ErrorCode::UnexpectedError => 1,
        ErrorCode::ConnectFailed => 2,
        ErrorCode::PermissionDenied => 3,
        ErrorCode::CollectionNotExists => 4,
        ErrorCode::IllegalArgument => 5,
        ErrorCode::IllegalDimension => 7,
        ErrorCode::IllegalIndexType => 8,
        ErrorCode::IllegalCollectionName => 9,
        ErrorCode::IllegalTopk => 10,
        ErrorCode::IllegalRowRecord => 11,
        ErrorCode::IllegalVectorId => 12,
        ErrorCode::IllegalSearchResult => 13,
        ErrorCode::FileNotFound => 14,
        ErrorCode::MetaFailed => 15,
        ErrorCode::CacheFailed => 16,
        ErrorCode::CannotCreateFolder => 17,
        ErrorCode::CannotCreateFile => 18,
        ErrorCode::CannotDeleteFolder => 19,
        ErrorCode::CannotDeleteFile => 20,
        ErrorCode::BuildIndexError => 21,
        ErrorCode::IllegalNlist => 22,
        ErrorCode::IllegalMetricType => 23,
        ErrorCode::OutOfMemory => 24,
        ErrorCode::IndexNotExist => 25,
        ErrorCode::EmptyCollection => 26,
    }
}

/// The partial inverse of `error_code_value`: which recognized code, if any,
/// a raw wire value denotes. Value 6 is unassigned in the store's contract.
pub open spec fn spec_error_code_from(v: int) -> Option<ErrorCode> {
    if v == 0 {
        Some(ErrorCode::Success)
    } else if v == 1 {
        Some(ErrorCode::UnexpectedError)
    } else if v == 2 {
        Some(ErrorCode::ConnectFailed)
    } else if v == 3 {
        Some(ErrorCode::PermissionDenied)
    } else if v == 4 {
        Some(ErrorCode::CollectionNotExists)
    } else if v == 5 {
        Some(ErrorCode::IllegalArgument)
    } else if v == 7 {
        Some(ErrorCode::IllegalDimension)
    } else if v == 8 {
        Some(ErrorCode::IllegalIndexType)
    } else if v == 9 {
        Some(ErrorCode::IllegalCollectionName)
    } else if v == 10 {
        Some(ErrorCode::IllegalTopk)
    } else if v == 11 {
        Some(ErrorCode::IllegalRowRecord)
    } else if v == 12 {
        Some(ErrorCode::IllegalVectorId)
    } else if v == 13 {
        Some(ErrorCode::IllegalSearchResult)
    } else if v == 14 {
        Some(ErrorCode::FileNotFound)
    } else if v == 15 {
        Some(ErrorCode::MetaFailed)
    } else if v == 16 {
        Some(ErrorCode::CacheFailed)
    } else if v == 17 {
        Some(ErrorCode::CannotCreateFolder)
    } else if v == 18 {
        Some(ErrorCode::CannotCreateFile)
    } else if v == 19 {
        Some(ErrorCode::CannotDeleteFolder)
    } else if v == 20 {
        Some(ErrorCode::CannotDeleteFile)
    } else if v == 21 {
        Some(ErrorCode::BuildIndexError)
    } else if v == 22 {
        Some(ErrorCode::IllegalNlist)
    } else if v == 23 {
        Some(ErrorCode::IllegalMetricType)
    } else if v == 24 {
        Some(ErrorCode::OutOfMemory)
    } else if v == 25 {
        Some(ErrorCode::IndexNotExist)
    } else if v == 26 {
        Some(ErrorCode::EmptyCollection)
    } else {
        None
    }
}

/// Recognize a raw wire error-code value.
pub fn error_code_from_i32(v: i32) -> (r: Option<ErrorCode>)
    ensures
        r == spec_error_code_from(v as int),
{
    match v {
        0 => Some(ErrorCode::Success),
        1 => Some(ErrorCode::UnexpectedError),
        2 => Some(ErrorCode::ConnectFailed),
        3 => Some(ErrorCode::PermissionDenied),
        4 => Some(ErrorCode::CollectionNotExists),
        5 => Some(ErrorCode::IllegalArgument),
        7 => Some(ErrorCode::IllegalDimension),
        8 => Some(ErrorCode::IllegalIndexType),
        9 => Some(ErrorCode::IllegalCollectionName),
        10 => Some(ErrorCode::IllegalTopk),
        11 => Some(ErrorCode::IllegalRowRecord),
        12 => Some(ErrorCode::IllegalVectorId),
        13 => Some(ErrorCode::IllegalSearchResult),
        14 => Some(ErrorCode::FileNotFound),
        15 => Some(ErrorCode::MetaFailed),
        16 => Some(ErrorCode::CacheFailed),
        17 => Some(ErrorCode::CannotCreateFolder),
        18 => Some(ErrorCode::CannotCreateFile),
        19 => Some(ErrorCode::CannotDeleteFolder),
        20 => Some(ErrorCode::CannotDeleteFile),
        21 => Some(ErrorCode::BuildIndexError),
        22 => Some(ErrorCode::IllegalNlist),
        23 => Some(ErrorCode::IllegalMetricType),
        24 => Some(ErrorCode::OutOfMemory),
        25 => Some(ErrorCode::IndexNotExist),
        26 => Some(ErrorCode::EmptyCollection),
        _ => None,
    }
}

/// The wire value of a recognized error code.
pub fn error_code_to_i32(c: ErrorCode) -> (r: i32)
    ensures
        r as int == error_code_value(c),
{
    match c {
        ErrorCode::Success => 0,
        ErrorCode::UnexpectedError => 1,
        ErrorCode::ConnectFailed => 2,
        ErrorCode::PermissionDenied => 3,
        ErrorCode::CollectionNotExists => 4,
        ErrorCode::IllegalArgument => 5,
        ErrorCode::IllegalDimension => 7,
        ErrorCode::IllegalIndexType => 8,
        ErrorCode::IllegalCollectionName => 9,
        ErrorCode::IllegalTopk => 10,
        ErrorCode::IllegalRowRecord => 11,
        ErrorCode::IllegalVectorId => 12,
        ErrorCode::IllegalSearchResult => 13,
        ErrorCode::FileNotFound => 14,
        ErrorCode::MetaFailed => 15,
        ErrorCode::CacheFailed => 16,
        ErrorCode::CannotCreateFolder => 17,
        ErrorCode::CannotCreateFile => 18,
        ErrorCode::CannotDeleteFolder => 19,
        ErrorCode::CannotDeleteFile => 20,
        ErrorCode::BuildIndexError => 21,
        ErrorCode::IllegalNlist => 22,
        ErrorCode::IllegalMetricType => 23,
        ErrorCode::OutOfMemory => 24,
        ErrorCode::IndexNotExist => 25,
        ErrorCode::EmptyCollection => 26,
    }
}

/// Envelope metadata sent with every request.
#[derive(Debug, Clone, PartialEq, Eq)]
pub struct MsgBase {
    pub msg_type: i32,
    pub msg_id: i64,
    pub timestamp: u64,
    pub source_id: i64,
}

/// The kind of remote operation a request envelope announces.
#[derive(Debug, Clone, Copy, PartialEq, Eq)]
pub enum MsgType {
    Undefined,
    CreateCollection,
    DropCollection,
    HasCollection,
    DescribeCollection,
    LoadCollection,
    ReleaseCollection,
    CreatePartition,
    DropPartition,
    HasPartition,
    ShowPartitions,
    LoadPartitions,
    ReleasePartitions,
    Insert,
    Delete,
    Flush,
    Retrieve,
}

/// The wire value of each message type.
pub open spec fn msg_type_value(t: MsgType) -> int {
    match t {
        MsgType::Undefined => 0,
        MsgType::CreateCollection => 100,
        MsgType::DropCollection => 101,
        MsgType::HasCollection => 102,
        MsgType::DescribeCollection => 103,
        MsgType::LoadCollection => 106,
        MsgType::ReleaseCollection => 107,
        MsgType::CreatePartition => 200,
        MsgType::DropPartition => 201,
        MsgType::HasPartition => 202,
        MsgType::ShowPartitions => 204,
        MsgType::LoadPartitions => 205,
        MsgType::ReleasePartitions => 206,
        MsgType::Insert => 400,
        MsgType::Delete => 401,
        MsgType::Flush => 402,
        MsgType::Retrieve => 502,
    }
}

/// The wire value of a message type.
pub fn msg_type_to_i32(t: MsgType) -> (r: i32)
    ensures
        r as int == msg_type_value(t),
{
    match t {
        MsgType::Undefined => 0,
        MsgType::CreateCollection => 100,
        MsgType::DropCollection => 101,
        MsgType::HasCollection => 102,
        MsgType::DescribeCollection => 103,
        MsgType::LoadCollection => 106,
        MsgType::ReleaseCollection => 107,
        MsgType::CreatePartition => 200,
        MsgType::DropPartition => 201,
        MsgType::HasPartition => 202,
        MsgType::ShowPartitions => 204,
        MsgType::LoadPartitions => 205,
        MsgType::ReleasePartitions => 206,
        MsgType::Insert => 400,
        MsgType::Delete => 401,
        MsgType::Flush => 402,
        MsgType::Retrieve => 502,
    }
}

/// Read-consistency level requested when a collection is created.
#[derive(Debug, Clone, Copy, PartialEq, Eq)]
pub enum ConsistencyLevel {
    Strong,
    Session,
    Bounded,
    Eventually,
    Customized,
}

/// The wire value of each consistency level.
pub open spec fn consistency_level_value(l: ConsistencyLevel) -> int {
    match l {
        ConsistencyLevel::Strong => 0,
        ConsistencyLevel::Session => 1,
        ConsistencyLevel::Bounded => 2,
        ConsistencyLevel::Eventually => 3,
        ConsistencyLevel::Customized => 4,
    }
}

/// The wire value of a consistency level.
pub fn consistency_level_to_i32(l: ConsistencyLevel) -> (r: i32)
    ensures
        r as int == consistency_level_value(l),
{
    match l {
        ConsistencyLevel::Strong => 0,
        ConsistencyLevel::Session => 1,
        ConsistencyLevel::Bounded => 2,
        ConsistencyLevel::Eventually => 3,
        ConsistencyLevel::Customized => 4,
    }
}

} // verus!

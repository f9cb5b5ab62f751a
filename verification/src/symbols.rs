use vstd::prelude::*;

verus! {

// Symbol identifiers for the entry points of the video extension families.
// Each identifier stands for the name of one native entry point; the symbol
// resolver of the owning context is keyed by these identifiers.

pub const SYM_GET_PHYSICAL_DEVICE_VIDEO_CAPABILITIES: u64 = 1;
pub const SYM_GET_PHYSICAL_DEVICE_VIDEO_FORMAT_PROPERTIES: u64 = 2;
pub const SYM_CREATE_VIDEO_SESSION: u64 = 3;
pub const SYM_DESTROY_VIDEO_SESSION: u64 = 4;
pub const SYM_GET_VIDEO_SESSION_MEMORY_REQUIREMENTS: u64 = 5;
pub const SYM_BIND_VIDEO_SESSION_MEMORY: u64 = 6;
pub const SYM_CREATE_VIDEO_SESSION_PARAMETERS: u64 = 7;
pub const SYM_UPDATE_VIDEO_SESSION_PARAMETERS: u64 = 8;
pub const SYM_DESTROY_VIDEO_SESSION_PARAMETERS: u64 = 9;
pub const SYM_CMD_BEGIN_VIDEO_CODING: u64 = 10;
pub const SYM_CMD_END_VIDEO_CODING: u64 = 11;
pub const SYM_CMD_CONTROL_VIDEO_CODING: u64 = 12;
pub const SYM_CMD_DECODE_VIDEO: u64 = 13;
pub const SYM_CMD_ENCODE_VIDEO: u64 = 14;

// Table slots of the video-session management family, in resolution order.

pub const IDX_GET_PHYSICAL_DEVICE_VIDEO_CAPABILITIES: usize = 0;
pub const IDX_GET_PHYSICAL_DEVICE_VIDEO_FORMAT_PROPERTIES: usize = 1;
pub const IDX_CREATE_VIDEO_SESSION: usize = 2;
pub const IDX_DESTROY_VIDEO_SESSION: usize = 3;
pub const IDX_GET_VIDEO_SESSION_MEMORY_REQUIREMENTS: usize = 4;
pub const IDX_BIND_VIDEO_SESSION_MEMORY: usize = 5;
pub const IDX_CREATE_VIDEO_SESSION_PARAMETERS: usize = 6;
pub const IDX_UPDATE_VIDEO_SESSION_PARAMETERS: usize = 7;
pub const IDX_DESTROY_VIDEO_SESSION_PARAMETERS: usize = 8;
pub const IDX_CMD_BEGIN_VIDEO_CODING: usize = 9;
pub const IDX_CMD_END_VIDEO_CODING: usize = 10;
pub const IDX_CMD_CONTROL_VIDEO_CODING: usize = 11;

/// Table slot of the single decode-family entry point.
pub const IDX_CMD_DECODE_VIDEO: usize = 0;

/// Table slot of the single encode-family entry point.
pub const IDX_CMD_ENCODE_VIDEO: usize = 0;

/// The symbols the video-session management proxy requires, in the fixed
/// order in which its constructor resolves them.
pub open spec fn video_queue_symbols() -> Seq<u64> {
    seq![
        SYM_GET_PHYSICAL_DEVICE_VIDEO_CAPABILITIES,
        SYM_GET_PHYSICAL_DEVICE_VIDEO_FORMAT_PROPERTIES,
        SYM_CREATE_VIDEO_SESSION,
        SYM_DESTROY_VIDEO_SESSION,
        SYM_GET_VIDEO_SESSION_MEMORY_REQUIREMENTS,
        SYM_BIND_VIDEO_SESSION_MEMORY,
        SYM_CREATE_VIDEO_SESSION_PARAMETERS,
        SYM_UPDATE_VIDEO_SESSION_PARAMETERS,
        SYM_DESTROY_VIDEO_SESSION_PARAMETERS,
        SYM_CMD_BEGIN_VIDEO_CODING,
        SYM_CMD_END_VIDEO_CODING,
        SYM_CMD_CONTROL_VIDEO_CODING,
    ]
}

/// The symbols the decode proxy requires, in resolution order.
pub open spec fn video_decode_queue_symbols() -> Seq<u64> {
    seq![SYM_CMD_DECODE_VIDEO]
}

/// The symbols the encode proxy requires, in resolution order.
pub open spec fn video_encode_queue_symbols() -> Seq<u64> {
    seq![SYM_CMD_ENCODE_VIDEO]
}

/// The symbol list of the video-session management proxy as a vector.
pub fn video_queue_symbol_list() -> (v: Vec<u64>)
    ensures
        v@ == video_queue_symbols(),
{
    let mut v: Vec<u64> = Vec::new();
    v.push(SYM_GET_PHYSICAL_DEVICE_VIDEO_CAPABILITIES);
    v.push(SYM_GET_PHYSICAL_DEVICE_VIDEO_FORMAT_PROPERTIES);
    v.push(SYM_CREATE_VIDEO_SESSION);
    v.push(SYM_DESTROY_VIDEO_SESSION);
    v.push(SYM_GET_VIDEO_SESSION_MEMORY_REQUIREMENTS);
    v.push(SYM_BIND_VIDEO_SESSION_MEMORY);
    v.push(SYM_CREATE_VIDEO_SESSION_PARAMETERS);
    v.push(SYM_UPDATE_VIDEO_SESSION_PARAMETERS);
    v.push(SYM_DESTROY_VIDEO_SESSION_PARAMETERS);
    v.push(SYM_CMD_BEGIN_VIDEO_CODING);
    v.push(SYM_CMD_END_VIDEO_CODING);
    v.push(SYM_CMD_CONTROL_VIDEO_CODING);
    proof {
        assert(v@ =~= video_queue_symbols());
    }
    v
}

/// The symbol list of the decode proxy as a vector.
pub fn video_decode_queue_symbol_list() -> (v: Vec<u64>)
    ensures
        v@ == video_decode_queue_symbols(),
{
    let mut v: Vec<u64> = Vec::new();
    v.push(SYM_CMD_DECODE_VIDEO);
    proof {
        assert(v@ =~= video_decode_queue_symbols());
    }
    v
}

/// The symbol list of the encode proxy as a vector.
pub fn video_encode_queue_symbol_list() -> (v: Vec<u64>)
    ensures
        v@ == video_encode_queue_symbols(),
{
    let mut v: Vec<u64> = Vec::new();
    v.push(SYM_CMD_ENCODE_VIDEO);
    proof {
        assert(v@ =~= video_encode_queue_symbols());
    }
    v
}

} // verus!

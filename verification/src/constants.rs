use vstd::prelude::*;

verus! {

/// How long a session token stays valid, in seconds, when its creator does
/// not say: one hour.
pub const DEFAULT_TOKEN_EXPIRATION_SECONDS: i64 = 3600;

/// The address of this program, `2SmNpccSbqmfxgVhRgu9gsvZyZj1h8FE6ZHLvV5JNiMW`,
/// as bytes.
pub const PROGRAM_ID: [u8; 32] = [
    21, 117, 98, 45, 156, 138, 117, 151, 7, 139, 71, 100, 162, 192, 176, 67, 55, 224, 112, 169,
    228, 24, 144, 100, 62, 232, 61, 218, 184, 240, 159, 193,
];

} // verus!

use vstd::prelude::*;
use vstd::utf8::encode_utf8;

use crate::error::NarrativeError;
use crate::identity::Identity;

verus! {

/// The highest score a record may carry.
pub const MAX_SCORE: u8 = 100;

/// The longest platform or alternative name, in bytes.
pub const MAX_NAME_LEN: usize = 20;

/// Length in bytes of the UTF-8 encoding of a text.
pub open spec fn text_len(s: Seq<char>) -> nat {
    encode_utf8(s).len()
}

/// Length in bytes of a name, as it is stored.
fn byte_len(s: &String) -> (n: usize)
    ensures
        n == text_len(s@),
{
    s.as_str().as_bytes().len()
}

/// An assessment that attention shifts from one platform to an alternative.
/// Once created it is never changed.
#[derive(Clone, Debug)]
pub struct NarrativeRecord {
    /// Confidence, scaled to 0..=100.
    pub score: u8,
    pub platform: String,
    pub alternative: String,
    pub timestamp: i64,
    /// The party that created the record.
    pub authority: Identity,
}

impl NarrativeRecord {
    /// The bounds that every stored record meets.
    pub open spec fn well_formed(&self) -> bool {
        &&& self.score <= MAX_SCORE
        &&& text_len(self.platform@) <= MAX_NAME_LEN
        &&& text_len(self.alternative@) <= MAX_NAME_LEN
    }
}

/// The parties to the creation of a record: its signing author.
#[derive(Clone, Copy, Debug)]
pub struct StoreNarrative {
    pub authority: Identity,
}

/// Creates a record authored by `ctx.authority`, after checking the score
/// and then the two names.
pub fn store_narrative(
    ctx: &StoreNarrative,
    score: u8,
    platform: String,
    alternative: String,
    timestamp: i64,
) -> (r: Result<NarrativeRecord, NarrativeError>)
    ensures
        r is Ok <==> (score <= MAX_SCORE && text_len(platform@) <= MAX_NAME_LEN && text_len(
            alternative@,
        ) <= MAX_NAME_LEN),
        r is Ok ==> ({
            let rec = r->Ok_0;
            &&& rec.score == score
            &&& rec.platform@ == platform@
            &&& rec.alternative@ == alternative@
            &&& rec.timestamp == timestamp
            &&& rec.authority == ctx.authority
            &&& rec.well_formed()
        }),
        score > MAX_SCORE ==> r == Err::<NarrativeRecord, NarrativeError>(
            NarrativeError::InvalidScore,
        ),
        score <= MAX_SCORE && text_len(platform@) > MAX_NAME_LEN ==> r == Err::<
            NarrativeRecord,
            NarrativeError,
        >(NarrativeError::PlatformTooLong),
        score <= MAX_SCORE && text_len(platform@) <= MAX_NAME_LEN && text_len(alternative@)
            > MAX_NAME_LEN ==> r == Err::<NarrativeRecord, NarrativeError>(
            NarrativeError::AlternativeTooLong,
        ),
{
    if score > MAX_SCORE {
        return Err(NarrativeError::InvalidScore);
    }
    if byte_len(&platform) > MAX_NAME_LEN {
        return Err(NarrativeError::PlatformTooLong);
    }
    if byte_len(&alternative) > MAX_NAME_LEN {
        return Err(NarrativeError::AlternativeTooLong);
    }
    Ok(NarrativeRecord { score, platform, alternative, timestamp, authority: ctx.authority })
}

} // verus!

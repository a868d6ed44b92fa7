//! Flag combination validation: only `explore + match_quality + compress` is
//! accepted, optionally with `ultimate`.
use vstd::prelude::*;
use vstd::string::*;

verus! {

/// The operating mode selected by a valid flag combination.
#[derive(Debug, Clone, Copy, PartialEq, Eq, Structural)]
pub enum FlagMode {
    PreciseQualityWithCompress,
    UltimateExplore,
}

/// The command-line spelling of each mode.
pub open spec fn mode_flags(m: FlagMode) -> Seq<char> {
    match m {
        FlagMode::PreciseQualityWithCompress => "--explore --match-quality --compress"@,
        FlagMode::UltimateExplore => "--explore --match-quality --compress --ultimate"@,
    }
}

/// The English description of each mode.
pub open spec fn mode_description(m: FlagMode) -> Seq<char> {
    match m {
        FlagMode::PreciseQualityWithCompress => "Precise quality match + must compress"@,
        FlagMode::UltimateExplore => "🔥 Ultimate explore (3D quality plateau search) [GPU+CPU]"@,
    }
}

impl FlagMode {
    pub open spec fn spec_is_ultimate(self) -> bool {
        self is UltimateExplore
    }

    /// The flags that select this mode, as typed on the command line.
    pub fn to_flag_string(&self) -> (r: String)
        ensures
            r@ == mode_flags(*self),
    {
        match self {
            FlagMode::PreciseQualityWithCompress => String::from_str(
                "--explore --match-quality --compress",
            ),
            FlagMode::UltimateExplore => String::from_str(
                "--explore --match-quality --compress --ultimate",
            ),
        }
    }

    /// A short English description of the mode.
    pub fn description_en(&self) -> (r: &'static str)
        ensures
            r@ == mode_description(*self),
    {
        match self {
            FlagMode::PreciseQualityWithCompress => "Precise quality match + must compress",
            FlagMode::UltimateExplore => "🔥 Ultimate explore (3D quality plateau search) [GPU+CPU]",
        }
    }

    /// Whether this is the ultimate explore mode.
    pub fn is_ultimate(&self) -> (r: bool)
        ensures
            r == self.spec_is_ultimate(),
    {
        matches!(self, FlagMode::UltimateExplore)
    }
}

/// Outcome of a flag validation.
#[derive(Debug)]
pub enum FlagValidation {
    Valid(FlagMode),
    Invalid(String),
}

/// The flags a user asked for.
#[derive(Debug, Clone, Copy, PartialEq, Eq, Structural)]
pub struct FlagRequest {
    pub explore: bool,
    pub match_quality: bool,
    pub compress: bool,
    pub ultimate: bool,
}

/// The message given for every combination other than the recommended one.
pub open spec fn invalid_combination_message() -> Seq<char> {
    "❌ Only the recommended flag combination is supported: explore + match-quality + compress (all on by default).\n💡 Omit flags to use defaults, or do not turn off explore/match-quality/compress."@
}

/// The recommended combination: explore, match-quality and compress all on.
pub open spec fn is_recommended(r: FlagRequest) -> bool {
    r.explore && r.match_quality && r.compress
}

/// The mode a request selects, or the refusal message.
pub open spec fn spec_validate(r: FlagRequest) -> Result<FlagMode, Seq<char>> {
    if !is_recommended(r) {
        Err(invalid_combination_message())
    } else if r.ultimate {
        Ok(FlagMode::UltimateExplore)
    } else {
        Ok(FlagMode::PreciseQualityWithCompress)
    }
}

/// A validation outcome agrees with the specified result.
pub open spec fn validation_matches(v: FlagValidation, expected: Result<FlagMode, Seq<char>>) -> bool {
    match expected {
        Ok(m) => v == FlagValidation::Valid(m),
        Err(msg) => v is Invalid && v->Invalid_0@ == msg,
    }
}

/// A `Result` outcome agrees with the specified result.
pub open spec fn result_matches(v: Result<FlagMode, String>, expected: Result<FlagMode, Seq<char>>) -> bool {
    match expected {
        Ok(m) => v == Ok::<FlagMode, String>(m),
        Err(msg) => v is Err && v->Err_0@ == msg,
    }
}

fn refusal() -> (r: String)
    ensures
        r@ == invalid_combination_message(),
{
    String::from_str(
        "❌ Only the recommended flag combination is supported: explore + match-quality + compress (all on by default).\n💡 Omit flags to use defaults, or do not turn off explore/match-quality/compress.",
    )
}

/// Validate explore / match-quality / compress, with ultimate off.
pub fn validate_flags(explore: bool, match_quality: bool, compress: bool) -> (r: FlagValidation)
    ensures
        validation_matches(
            r,
            spec_validate(FlagRequest { explore, match_quality, compress, ultimate: false }),
        ),
{
    validate_flags_with_ultimate(FlagRequest { explore, match_quality, compress, ultimate: false })
}

/// Validate a full flag request.
pub fn validate_flags_with_ultimate(request: FlagRequest) -> (r: FlagValidation)
    ensures
        validation_matches(r, spec_validate(request)),
{
    if !request.explore || !request.match_quality || !request.compress {
        return FlagValidation::Invalid(refusal());
    }
    if request.ultimate {
        return FlagValidation::Valid(FlagMode::UltimateExplore);
    }
    FlagValidation::Valid(FlagMode::PreciseQualityWithCompress)
}

/// Validate explore / match-quality / compress (ultimate off) into a `Result`.
pub fn validate_flags_result(explore: bool, match_quality: bool, compress: bool) -> (r: Result<
    FlagMode,
    String,
>)
    ensures
        result_matches(
            r,
            spec_validate(FlagRequest { explore, match_quality, compress, ultimate: false }),
        ),
{
    match validate_flags(explore, match_quality, compress) {
        FlagValidation::Valid(mode) => Ok(mode),
        FlagValidation::Invalid(err) => Err(err),
    }
}

/// Validate a full flag request into a `Result`.
pub fn validate_flags_result_with_ultimate(request: FlagRequest) -> (r: Result<FlagMode, String>)
    ensures
        result_matches(r, spec_validate(request)),
{
    match validate_flags_with_ultimate(request) {
        FlagValidation::Valid(mode) => Ok(mode),
        FlagValidation::Invalid(err) => Err(err),
    }
}

/// Only the recommended combination is accepted, whatever `ultimate` says.
pub proof fn law_only_recommended_is_valid(r: FlagRequest)
    ensures
        spec_validate(r) is Ok <==> (r.explore && r.match_quality && r.compress),
{
}

/// On an accepted request, the mode is the ultimate one exactly when `ultimate` was asked for.
pub proof fn law_ultimate_follows_request(r: FlagRequest)
    requires
        spec_validate(r) is Ok,
    ensures
        spec_validate(r)->Ok_0.spec_is_ultimate() == r.ultimate,
{
}

/// Without `ultimate`, an accepted request always selects the precise mode.
pub proof fn law_plain_validation_is_precise(explore: bool, match_quality: bool, compress: bool)
    ensures
        spec_validate(FlagRequest { explore, match_quality, compress, ultimate: false }) is Ok
            ==> spec_validate(
            FlagRequest { explore, match_quality, compress, ultimate: false },
        )->Ok_0 == FlagMode::PreciseQualityWithCompress,
{
}

} // verus!

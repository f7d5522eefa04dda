//! The decoding parameters of a run, as a plain configuration object.

use vstd::prelude::*;
use vstd::string::*;

verus! {

/// The phrase that seeds decoding when a request names no prompt of its own.
pub const DEFAULT_PROMPT: &'static str = "以下是普通话的句子，这是一段会议记录。";

/// The language hint of a request that names none.
pub const DEFAULT_LANGUAGE: &'static str = "zh";

/// How the engine searches for the next token.
#[derive(Clone, Copy, Debug, PartialEq, Eq, Structural)]
pub enum SamplingStrategy {
    /// Always take the likeliest continuation, out of `best_of` candidates.
    Greedy { best_of: i32 },
    /// Keep `beam_size` hypotheses alive.
    BeamSearch { beam_size: i32 },
}

/// What a run is configured with. The print flags only switch diagnostics:
/// they do not change what is transcribed.
pub struct TranscribeParams {
    pub strategy: SamplingStrategy,
    /// Text that biases the first tokens.
    pub initial_prompt: String,
    /// ISO code of the spoken language; `None` lets the engine detect it.
    pub language: Option<String>,
    pub debug_mode: bool,
    pub print_progress: bool,
    pub print_special: bool,
    pub print_realtime: bool,
    pub print_timestamps: bool,
}

/// Whether `c` occurs in `s`.
pub fn contains_char(s: &str, c: char) -> (r: bool)
    ensures
        r == s@.contains(c),
{
    let n = s.unicode_len();
    let mut i: usize = 0;
    while i < n
        invariant
            n == s@.len(),
            i <= n,
            forall|j: int| 0 <= j < i ==> s@[j] != c,
        decreases n - i,
    {
        if s.get_char(i) == c {
            return true;
        }
        i += 1;
    }
    false
}

impl TranscribeParams {
    /// Every diagnostic flag is off.
    pub open spec fn is_quiet(&self) -> bool {
        !self.debug_mode && !self.print_progress && !self.print_special && !self.print_realtime
            && !self.print_timestamps
    }

    /// Greedy best-of-one decoding, the fixed seed prompt, the fixed language
    /// hint, no diagnostics.
    pub open spec fn is_default(&self) -> bool {
        &&& self.strategy == (SamplingStrategy::Greedy { best_of: 1 })
        &&& self.initial_prompt@ == DEFAULT_PROMPT@
        &&& self.language matches Some(l) && l@ == DEFAULT_LANGUAGE@
        &&& self.is_quiet()
    }

    /// Neither the prompt nor the language holds a NUL character, which the
    /// engine's C strings cannot carry.
    pub open spec fn is_engine_safe(&self) -> bool {
        &&& !self.initial_prompt@.contains('\0')
        &&& self.language matches Some(l) ==> !l@.contains('\0')
    }

    /// Tests whether the strings can be handed to the engine.
    pub fn check_engine_safe(&self) -> (r: bool)
        ensures
            r == self.is_engine_safe(),
    {
        if contains_char(self.initial_prompt.as_str(), '\0') {
            return false;
        }
        match &self.language {
            Some(l) => !contains_char(l.as_str(), '\0'),
            None => true,
        }
    }
}

impl Default for TranscribeParams {
    fn default() -> (r: TranscribeParams)
        ensures
            r.is_default(),
    {
        TranscribeParams {
            strategy: SamplingStrategy::Greedy { best_of: 1 },
            initial_prompt: String::from_str(DEFAULT_PROMPT),
            language: Some(String::from_str(DEFAULT_LANGUAGE)),
            debug_mode: false,
            print_progress: false,
            print_special: false,
            print_realtime: false,
            print_timestamps: false,
        }
    }
}

/// The parameters that a request runs with: its own, or the defaults when it
/// brought none.
pub fn resolve_params(params: Option<TranscribeParams>) -> (r: TranscribeParams)
    ensures
        match params {
            Some(p) => r == p,
            None => r.is_default(),
        },
{
    match params {
        Some(p) => p,
        None => TranscribeParams::default(),
    }
}

} // verus!

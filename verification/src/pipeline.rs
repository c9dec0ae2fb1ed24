//! The normalization pipeline: the fixed composition of codeblock
//! unwrapping and escape-sequence stripping that produces the text handed
//! to the highlighting engine.

use vstd::prelude::*;
use crate::codeblock::unwrap_codeblock;
use crate::codeblock::unwrap_spec;

verus! {

/// The kind of input syntax the highlighting engine is asked to use.
#[derive(Debug, Clone, Copy, PartialEq, Eq, Structural)]
pub enum SyntaxMode {
    Code,
    Markup,
    Math,
}

/// The immutable record of recognized options: the two pipeline switches
/// and the preferences passed on to the highlighting engine.
#[derive(Debug, Clone)]
pub struct Config {
    /// Remove one layer of a surrounding fenced-code-block delimiter.
    pub unwrap_codeblock: bool,
    /// Strip terminal escape sequences from the input before highlighting.
    pub strip_ansi: bool,
    /// The grammar the highlighting engine should apply.
    pub syntax_mode: SyntaxMode,
    /// Avoid styling sequences a specific chat-client renderer rejects.
    pub discord_compatible: bool,
    /// A requested, not guaranteed, upper bound on rendered output bytes.
    pub soft_size_limit: Option<usize>,
}

impl Default for Config {
    /// The default policy: stripping on, unwrapping off, markup grammar,
    /// no compatibility restriction, no size budget.
    fn default() -> (c: Config)
        ensures
            c.unwrap_codeblock == false,
            c.strip_ansi == true,
            c.syntax_mode == SyntaxMode::Markup,
            c.discord_compatible == false,
            c.soft_size_limit is None,
    {
        Config {
            unwrap_codeblock: false,
            strip_ansi: true,
            syntax_mode: SyntaxMode::Markup,
            discord_compatible: false,
            soft_size_limit: None,
        }
    }
}

/// The text that escape-sequence stripping leaves: a function of the input
/// characters alone.
pub uninterp spec fn ansi_stripped(t: Seq<char>) -> Seq<char>;

/// Relies on `strip_ansi_escapes::strip_str`: it removes terminal escape
/// sequences, its result depends on the input text alone, and an empty
/// input stays empty.
#[verifier::external_body]
fn strip_ansi(s: &str) -> (r: String)
    ensures
        r@ == ansi_stripped(s@),
        s@.len() == 0 ==> r@.len() == 0,
{
    strip_ansi_escapes::strip_str(s)
}

/// The first pipeline stage: the unwrapped text when unwrapping is
/// switched on, the input unchanged otherwise.
pub open spec fn stage_one(t: Seq<char>, c: Config) -> Seq<char> {
    if c.unwrap_codeblock {
        unwrap_spec(t)
    } else {
        t
    }
}

/// What the pipeline hands to the highlighting engine: unwrapping first,
/// stripping second, each stage applied only when its switch is on.
pub open spec fn normalize_spec(t: Seq<char>, c: Config) -> Seq<char> {
    if c.strip_ansi {
        ansi_stripped(stage_one(t, c))
    } else {
        stage_one(t, c)
    }
}

/// Runs the two normalization stages in their fixed order — codeblock
/// unwrapping, then escape-sequence stripping — and returns the text to be
/// forwarded to the highlighting engine.
pub fn normalize(input: &str, config: &Config) -> (r: String)
    ensures
        r@ == normalize_spec(input@, *config),
{
    let unwrapped: &str = if config.unwrap_codeblock {
        unwrap_codeblock(input)
    } else {
        input
    };
    if config.strip_ansi {
        strip_ansi(unwrapped)
    } else {
        unwrapped.to_owned()
    }
}

} // verus!

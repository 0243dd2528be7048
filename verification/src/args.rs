//! The arguments with which a cell is configured where it is declared:
//! nothing, `arc`, `sleep_ms = <integer>`, or `arc, sleep_ms = <integer>`.
//!
//! The arguments arrive as a sequence of tokens. Splitting source text into
//! tokens is the caller's business; what the tokens mean is decided here.

use vstd::prelude::*;
use vstd::string::*;
use crate::policy::{ExposureMode, WaitPolicy, DEFAULT_INTERVAL_MS, DEFAULT_MAX_ATTEMPTS};

verus! {

/// An integer literal as `syn` holds it. Nothing of its contents is visible
/// to the proofs: the library carries it to the one call that reads it.
#[verifier::external_type_specification]
#[verifier::external_body]
pub struct ExLitInt(syn::LitInt);

/// One token of an argument list.
pub enum ArgToken {
    /// An identifier, by its name.
    Ident(String),
    /// The comma between two arguments.
    Comma,
    /// The `=` between a parameter and its value.
    Equals,
    /// An integer literal.
    Integer(syn::LitInt),
    /// Any other token.
    Other,
}

/// What an argument list asks for.
#[derive(Clone, Copy, Debug, PartialEq, Eq, Structural)]
pub struct SingletonArgs {
    pub use_arc: bool,
    pub sleep_ms: Option<u64>,
}

/// Why an argument list was refused.
#[derive(Clone, Copy, Debug, PartialEq, Eq, Structural)]
pub enum ArgsError {
    /// A parameter name was expected, and something else or nothing came.
    ExpectedIdentifier,
    /// The first parameter is neither `arc` nor `sleep_ms`.
    ExpectedArcOrSleepMs,
    /// The parameter after `arc,` is not `sleep_ms`.
    ExpectedSleepMs,
    /// `sleep_ms` is not followed by `=`.
    ExpectedEquals,
    /// The value of `sleep_ms` is not an integer literal.
    ExpectedInteger,
    /// The value of `sleep_ms` is an integer literal that has no value in
    /// 64 bits without sign.
    IntegerOutOfRange,
    /// Tokens follow a complete argument list.
    UnexpectedToken,
}

/// Calls `syn::LitInt::base10_parse::<u64>`, which hands the literal's decimal
/// digits to `str::parse` and returns an error where that fails. The error
/// becomes `None`. Nothing is claimed of the value: the callers are proved for
/// whatever comes back.
#[verifier::external_body]
fn value_in_64_bits(literal: &syn::LitInt) -> (r: Option<u64>) {
    literal.base10_parse::<u64>().ok()
}

impl ArgToken {
    /// Whether the token is the identifier `word`.
    pub open spec fn is_word(self, word: Seq<char>) -> bool {
        self matches ArgToken::Ident(s) && s@ == word
    }

    fn has_name(&self, word: &str) -> (r: bool)
        ensures
            r == self.is_word(word@),
    {
        match self {
            ArgToken::Ident(s) => {
                let w = String::from_str(word);
                *s == w
            },
            _ => false,
        }
    }
}

impl SingletonArgs {
    /// The exposure mode asked for: shared with `arc`, direct without.
    pub fn exposure(&self) -> (r: ExposureMode)
        ensures
            r == (if self.use_arc {
                ExposureMode::Shared
            } else {
                ExposureMode::Direct
            }),
    {
        if self.use_arc {
            ExposureMode::Shared
        } else {
            ExposureMode::Direct
        }
    }

    /// The interval asked for, or the default.
    pub open spec fn interval(self) -> u64 {
        match self.sleep_ms {
            Some(ms) => ms,
            None => DEFAULT_INTERVAL_MS,
        }
    }

    /// The wait policy asked for: the given interval, or the default, with
    /// the default number of attempts. An interval of zero gives none.
    pub fn policy(&self) -> (r: Option<WaitPolicy>)
        ensures
            r == (if self.interval() > 0 {
                Some(WaitPolicy { interval_ms: self.interval(), max_attempts: DEFAULT_MAX_ATTEMPTS })
            } else {
                None
            }),
    {
        let interval_ms: u64 = match self.sleep_ms {
            Some(ms) => ms,
            None => DEFAULT_INTERVAL_MS,
        };
        WaitPolicy::with_interval(interval_ms)
    }
}

/// Where the value of `sleep_ms` stands, if the list gets as far as one:
/// behind `sleep_ms =` or behind `arc , sleep_ms =`.
pub open spec fn value_slot(tokens: Seq<ArgToken>) -> Option<int> {
    if tokens.len() > 4 && tokens[0].is_word("arc"@) && tokens[1] == ArgToken::Comma
        && tokens[2].is_word("sleep_ms"@) && tokens[3] == ArgToken::Equals {
        Some(4)
    } else if tokens.len() > 2 && !tokens[0].is_word("arc"@) && tokens[0].is_word("sleep_ms"@)
        && tokens[1] == ArgToken::Equals {
        Some(2)
    } else {
        None
    }
}

/// Whether the meaning of the list depends on the value of an integer
/// literal: it does where one stands in the value's place.
pub open spec fn reads_integer(tokens: Seq<ArgToken>) -> bool {
    value_slot(tokens) matches Some(i) && tokens[i] is Integer
}

/// What `= <value>` means when it starts at position `at` of `tokens` and
/// has to end the list, where `value` is what the literal in the value's
/// place holds in 64 bits, if it holds anything.
pub open spec fn sleep_ms_at(tokens: Seq<ArgToken>, at: int, use_arc: bool, value: Option<u64>)
    -> Result<SingletonArgs, ArgsError> {
    if tokens.len() <= at || tokens[at] != ArgToken::Equals {
        Err(ArgsError::ExpectedEquals)
    } else if tokens.len() <= at + 1 || !(tokens[at + 1] is Integer) {
        Err(ArgsError::ExpectedInteger)
    } else if value is None {
        Err(ArgsError::IntegerOutOfRange)
    } else if tokens.len() > at + 2 {
        Err(ArgsError::UnexpectedToken)
    } else {
        Ok(SingletonArgs { use_arc, sleep_ms: value })
    }
}

/// What an argument list means, where `value` is what the literal in the
/// value's place holds in 64 bits, if it holds anything.
pub open spec fn parsed(tokens: Seq<ArgToken>, value: Option<u64>) -> Result<
    SingletonArgs,
    ArgsError,
> {
    if tokens.len() == 0 {
        Ok(SingletonArgs { use_arc: false, sleep_ms: Some(DEFAULT_INTERVAL_MS) })
    } else if tokens[0].is_word("arc"@) {
        if tokens.len() == 1 {
            Ok(SingletonArgs { use_arc: true, sleep_ms: Some(DEFAULT_INTERVAL_MS) })
        } else if tokens[1] != ArgToken::Comma {
            Err(ArgsError::UnexpectedToken)
        } else if tokens.len() == 2 {
            Ok(SingletonArgs { use_arc: true, sleep_ms: Some(DEFAULT_INTERVAL_MS) })
        } else if tokens[2].is_word("sleep_ms"@) {
            sleep_ms_at(tokens, 3, true, value)
        } else if tokens[2] is Ident {
            Err(ArgsError::ExpectedSleepMs)
        } else {
            Err(ArgsError::ExpectedIdentifier)
        }
    } else if tokens[0].is_word("sleep_ms"@) {
        sleep_ms_at(tokens, 1, false, value)
    } else if tokens[0] is Ident {
        Err(ArgsError::ExpectedArcOrSleepMs)
    } else {
        Err(ArgsError::ExpectedIdentifier)
    }
}

/// The arguments that a list of one of the accepted forms asks for: the
/// empty list; `arc`; `arc ,`; `sleep_ms = <integer>`; `arc , sleep_ms =
/// <integer>`, the last two with a literal that has a value. Every other
/// list asks for nothing.
pub open spec fn accepted(tokens: Seq<ArgToken>, value: Option<u64>) -> Option<SingletonArgs> {
    if tokens.len() == 0 {
        Some(SingletonArgs { use_arc: false, sleep_ms: Some(DEFAULT_INTERVAL_MS) })
    } else if tokens.len() == 1 && tokens[0].is_word("arc"@) {
        Some(SingletonArgs { use_arc: true, sleep_ms: Some(DEFAULT_INTERVAL_MS) })
    } else if tokens.len() == 2 && tokens[0].is_word("arc"@) && tokens[1] == ArgToken::Comma {
        Some(SingletonArgs { use_arc: true, sleep_ms: Some(DEFAULT_INTERVAL_MS) })
    } else if tokens.len() == 3 && tokens[0].is_word("sleep_ms"@) && tokens[1] == ArgToken::Equals
        && tokens[2] is Integer && value is Some {
        Some(SingletonArgs { use_arc: false, sleep_ms: value })
    } else if tokens.len() == 5 && tokens[0].is_word("arc"@) && tokens[1] == ArgToken::Comma
        && tokens[2].is_word("sleep_ms"@) && tokens[3] == ArgToken::Equals && tokens[4] is Integer
        && value is Some {
        Some(SingletonArgs { use_arc: true, sleep_ms: value })
    } else {
        None
    }
}

/// A list is read with success exactly if it has one of the accepted forms,
/// and then it means what that form asks for.
pub proof fn lemma_accepted_lists(tokens: Seq<ArgToken>, value: Option<u64>)
    ensures
        parsed(tokens, value) is Ok <==> accepted(tokens, value) is Some,
        parsed(tokens, value) matches Ok(args) ==> accepted(tokens, value) == Some(args),
{
    lemma_words_differ();
}

/// A list whose value's place holds no integer literal means the same
/// whatever value is supposed.
pub proof fn lemma_value_matters_only_when_read(
    tokens: Seq<ArgToken>,
    one: Option<u64>,
    other: Option<u64>,
)
    requires
        !reads_integer(tokens),
    ensures
        parsed(tokens, one) == parsed(tokens, other),
{
    lemma_words_differ();
}

/// The position of the token that a refused list is refused for; the length
/// of the list where it ends too early.
pub open spec fn blamed(tokens: Seq<ArgToken>, error: ArgsError) -> int {
    let equals_at: int = if tokens.len() > 0 && tokens[0].is_word("arc"@) {
        3
    } else {
        1
    };
    match error {
        ArgsError::ExpectedArcOrSleepMs => 0,
        ArgsError::ExpectedSleepMs => 2,
        ArgsError::ExpectedIdentifier => if tokens.len() > 0 && tokens[0] is Ident {
            2
        } else {
            0
        },
        ArgsError::ExpectedEquals => equals_at,
        ArgsError::ExpectedInteger => equals_at + 1,
        ArgsError::IntegerOutOfRange => equals_at + 1,
        ArgsError::UnexpectedToken => if equals_at == 3 && tokens.len() > 1 && tokens[1]
            != ArgToken::Comma {
            1
        } else {
            equals_at + 2
        },
    }
}

/// The token blamed for an error is the one that does not fit: it stands in
/// the list, or the list ends where it is missed, and it is not what the
/// error says was expected.
pub proof fn lemma_blamed_token_does_not_fit(tokens: Seq<ArgToken>, value: Option<u64>)
    requires
        parsed(tokens, value) is Err,
    ensures
        ({
            let error = parsed(tokens, value)->Err_0;
            let at = blamed(tokens, error);
            &&& 0 <= at <= tokens.len()
            &&& match error {
                ArgsError::ExpectedIdentifier => at < tokens.len() && !(tokens[at] is Ident),
                ArgsError::ExpectedArcOrSleepMs => at < tokens.len() && tokens[at] is Ident
                    && !tokens[at].is_word("arc"@) && !tokens[at].is_word("sleep_ms"@),
                ArgsError::ExpectedSleepMs => at < tokens.len() && tokens[at] is Ident
                    && !tokens[at].is_word("sleep_ms"@),
                ArgsError::ExpectedEquals => at == tokens.len() || tokens[at] != ArgToken::Equals,
                ArgsError::ExpectedInteger => at == tokens.len() || !(tokens[at] is Integer),
                ArgsError::IntegerOutOfRange => at < tokens.len() && tokens[at] is Integer
                    && value is None,
                ArgsError::UnexpectedToken => at < tokens.len(),
            }
        }),
{
    lemma_words_differ();
}

proof fn lemma_words_differ()
    ensures
        "arc"@ != "sleep_ms"@,
{
    reveal_strlit("arc");
    reveal_strlit("sleep_ms");
    assert("arc"@.len() == 3);
    assert("sleep_ms"@.len() == 8);
}

fn is_equals(token: &ArgToken) -> (r: bool)
    ensures
        r == (*token == ArgToken::Equals),
{
    match token {
        ArgToken::Equals => true,
        _ => false,
    }
}

fn is_comma(token: &ArgToken) -> (r: bool)
    ensures
        r == (*token == ArgToken::Comma),
{
    match token {
        ArgToken::Comma => true,
        _ => false,
    }
}

fn is_ident(token: &ArgToken) -> (r: bool)
    ensures
        r == (*token is Ident),
{
    match token {
        ArgToken::Ident(_) => true,
        _ => false,
    }
}

fn is_integer(token: &ArgToken) -> (r: bool)
    ensures
        r == (*token is Integer),
{
    match token {
        ArgToken::Integer(_) => true,
        _ => false,
    }
}

fn parse_sleep_ms(tokens: &Vec<ArgToken>, at: usize, use_arc: bool, value: Option<u64>) -> (r:
    Result<SingletonArgs, ArgsError>)
    requires
        at <= 3,
    ensures
        r == sleep_ms_at(tokens@, at as int, use_arc, value),
{
    if tokens.len() <= at || !is_equals(&tokens[at]) {
        return Err(ArgsError::ExpectedEquals);
    }
    if tokens.len() <= at + 1 || !is_integer(&tokens[at + 1]) {
        return Err(ArgsError::ExpectedInteger);
    }
    match value {
        None => Err(ArgsError::IntegerOutOfRange),
        Some(ms) => {
            if tokens.len() > at + 2 {
                Err(ArgsError::UnexpectedToken)
            } else {
                Ok(SingletonArgs { use_arc, sleep_ms: Some(ms) })
            }
        },
    }
}

/// Reads an argument list, given what the literal in the value's place
/// holds in 64 bits (`None`: nothing). An empty list asks for the defaults.
pub fn parse_args_given(tokens: &Vec<ArgToken>, value: Option<u64>) -> (r: Result<
    SingletonArgs,
    ArgsError,
>)
    ensures
        r == parsed(tokens@, value),
{
    if tokens.len() == 0 {
        return Ok(SingletonArgs { use_arc: false, sleep_ms: Some(DEFAULT_INTERVAL_MS) });
    }
    if tokens[0].has_name("arc") {
        if tokens.len() == 1 {
            Ok(SingletonArgs { use_arc: true, sleep_ms: Some(DEFAULT_INTERVAL_MS) })
        } else if !is_comma(&tokens[1]) {
            Err(ArgsError::UnexpectedToken)
        } else if tokens.len() == 2 {
            Ok(SingletonArgs { use_arc: true, sleep_ms: Some(DEFAULT_INTERVAL_MS) })
        } else if tokens[2].has_name("sleep_ms") {
            parse_sleep_ms(tokens, 3, true, value)
        } else if is_ident(&tokens[2]) {
            Err(ArgsError::ExpectedSleepMs)
        } else {
            Err(ArgsError::ExpectedIdentifier)
        }
    } else if tokens[0].has_name("sleep_ms") {
        parse_sleep_ms(tokens, 1, false, value)
    } else if is_ident(&tokens[0]) {
        Err(ArgsError::ExpectedArcOrSleepMs)
    } else {
        Err(ArgsError::ExpectedIdentifier)
    }
}

/// The position of the token that a refused list is refused for; the length
/// of the list where it ends too early.
pub fn blamed_token(tokens: &Vec<ArgToken>, error: ArgsError) -> (r: usize)
    ensures
        r == blamed(tokens@, error),
{
    let after_arc = tokens.len() > 0 && tokens[0].has_name("arc");
    let equals_at: usize = if after_arc {
        3
    } else {
        1
    };
    match error {
        ArgsError::ExpectedArcOrSleepMs => 0,
        ArgsError::ExpectedSleepMs => 2,
        ArgsError::ExpectedIdentifier => if tokens.len() > 0 && is_ident(&tokens[0]) {
            2
        } else {
            0
        },
        ArgsError::ExpectedEquals => equals_at,
        ArgsError::ExpectedInteger => equals_at + 1,
        ArgsError::IntegerOutOfRange => equals_at + 1,
        ArgsError::UnexpectedToken => if after_arc && tokens.len() > 1 && !is_comma(&tokens[1]) {
            1
        } else {
            equals_at + 2
        },
    }
}

/// The place of the value of `sleep_ms`, if the list gets as far as one.
pub fn find_value_slot(tokens: &Vec<ArgToken>) -> (r: Option<usize>)
    ensures
        match r {
            Some(i) => value_slot(tokens@) == Some(i as int),
            None => value_slot(tokens@) is None,
        },
{
    if tokens.len() > 4 && tokens[0].has_name("arc") && is_comma(&tokens[1]) && tokens[2].has_name(
        "sleep_ms",
    ) && is_equals(&tokens[3]) {
        Some(4)
    } else if tokens.len() > 2 && !tokens[0].has_name("arc") && tokens[0].has_name("sleep_ms")
        && is_equals(&tokens[1]) {
        Some(2)
    } else {
        None
    }
}

/// Reads an argument list. Where an integer literal stands in the value's
/// place, the list means what `parsed` says for the value that the literal
/// holds; that value is read outside the proofs, so the contract promises the
/// meaning for some value. Every other list has its one meaning.
pub fn parse_args(tokens: &Vec<ArgToken>) -> (r: Result<SingletonArgs, ArgsError>)
    ensures
        exists|value: Option<u64>| r == #[trigger] parsed(tokens@, value),
        !reads_integer(tokens@) ==> r == parsed(tokens@, None),
        r is Ok <==> exists|value: Option<u64>| #[trigger]
            accepted(tokens@, value) is Some && r == parsed(tokens@, value),
{
    let value: Option<u64> = match find_value_slot(tokens) {
        Some(i) => match &tokens[i] {
            ArgToken::Integer(literal) => value_in_64_bits(literal),
            _ => None,
        },
        None => None,
    };
    let r = parse_args_given(tokens, value);
    proof {
        lemma_accepted_lists(tokens@, value);
        if r is Ok {
            assert(accepted(tokens@, value) is Some && r == parsed(tokens@, value));
        }
        assert forall|other: Option<u64>|
            #[trigger] accepted(tokens@, other) is Some && r == parsed(tokens@, other) implies r
            is Ok by {
            lemma_accepted_lists(tokens@, other);
        }
    }
    r
}

} // verus!

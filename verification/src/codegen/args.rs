//! Arguments of the function-style macros.
use super::text::joined;
use vstd::prelude::*;

verus! {

/// A token of a macro call.
#[derive(Debug)]
pub enum ArgToken {
    /// An identifier that can name a binding.
    Ident(String),
    Comma,
    /// A keyword, which names nothing.
    Keyword(String),
    /// Anything else.
    Other,
}

/// Why the arguments of a macro call are refused, with the position of the
/// token at fault.
#[derive(Clone, Copy, Debug, PartialEq, Eq, Structural)]
pub enum ArgError {
    ExpectedIdent(usize),
    ExpectedComma(usize),
    UnexpectedToken(usize),
}

/// Token `i` is what belongs there: an identifier in even places, a comma in
/// odd ones.
pub open spec fn fits(tokens: Seq<ArgToken>, i: int) -> bool {
    i < tokens.len() && if i % 2 == 0 {
        tokens[i] is Ident
    } else {
        tokens[i] is Comma
    }
}

/// The first place from `i` on and before `end` whose token does not fit; `end`
/// if there is none.
pub open spec fn first_misfit(tokens: Seq<ArgToken>, i: int, end: int) -> int
    decreases end - i,
{
    if i >= end {
        end
    } else if !fits(tokens, i) {
        i
    } else {
        first_misfit(tokens, i + 1, end)
    }
}

/// Why the tokens are no list of `count` identifiers.
pub open spec fn arg_error(tokens: Seq<ArgToken>, count: nat) -> Option<ArgError> {
    let end = 2 * count - 1;
    let misfit = first_misfit(tokens, 0, end);
    if misfit < end {
        if misfit % 2 == 0 {
            Some(ArgError::ExpectedIdent(misfit as usize))
        } else {
            Some(ArgError::ExpectedComma(misfit as usize))
        }
    } else if tokens.len() > end {
        Some(ArgError::UnexpectedToken(end as usize))
    } else {
        None
    }
}

/// The name of argument `k`.
pub open spec fn arg_name(tokens: Seq<ArgToken>, k: int) -> String {
    tokens[2 * k]->Ident_0
}

/// Before the first misfit everything fits.
proof fn lemma_fits_before(tokens: Seq<ArgToken>, i: int, end: int, k: int)
    requires
        0 <= i <= k < first_misfit(tokens, i, end),
    ensures
        fits(tokens, k),
    decreases end - i,
{
    if i < end && fits(tokens, i) && i < k {
        lemma_fits_before(tokens, i + 1, end, k);
    }
}

/// The names in a list of `count` identifiers with commas between them.
pub fn parse_idents(tokens: &[ArgToken], count: usize) -> (result: Result<Vec<String>, ArgError>)
    requires
        1 <= count,
        2 * count - 1 <= usize::MAX,
    ensures
        match arg_error(tokens@, count as nat) {
            Some(error) => result == Err::<Vec<String>, ArgError>(error),
            None => result matches Ok(names) && names@.len() == count && forall|k: int|
                0 <= k < count ==> #[trigger] names@[k] == arg_name(tokens@, k),
        },
{
    let end: usize = count - 1 + count;
    let mut names: Vec<String> = Vec::new();
    let mut i: usize = 0;
    while i < end
        invariant
            1 <= count,
            end == 2 * count - 1,
            i <= end,
            first_misfit(tokens@, 0, end as int) == first_misfit(tokens@, i as int, end as int),
            names@.len() == (i + 1) / 2,
            forall|k: int| 0 <= k < names@.len() ==> #[trigger] names@[k] == arg_name(tokens@, k),
        decreases end - i,
    {
        if i >= tokens.len() {
            return Err(
                if i % 2 == 0 {
                    ArgError::ExpectedIdent(i)
                } else {
                    ArgError::ExpectedComma(i)
                },
            );
        }
        if i % 2 == 0 {
            match &tokens[i] {
                ArgToken::Ident(name) => {
                    names.push(name.clone());
                },
                _ => {
                    return Err(ArgError::ExpectedIdent(i));
                },
            }
        } else {
            match &tokens[i] {
                ArgToken::Comma => {},
                _ => {
                    return Err(ArgError::ExpectedComma(i));
                },
            }
        }
        i = i + 1;
    }
    if tokens.len() > end {
        return Err(ArgError::UnexpectedToken(end));
    }
    Ok(names)
}

/// What is told of refused arguments.
pub open spec fn arg_message(tokens: Seq<ArgToken>, error: ArgError) -> Seq<char> {
    match error {
        ArgError::ExpectedIdent(i) => if i >= tokens.len() {
            "unexpected end of input, expected identifier"@
        } else {
            match tokens[i as int] {
                ArgToken::Keyword(word) => "expected identifier, found keyword `"@ + word@ + "`"@,
                _ => "expected identifier"@,
            }
        },
        ArgError::ExpectedComma(_) => "expected `,`"@,
        ArgError::UnexpectedToken(_) => "unexpected token"@,
    }
}

impl ArgError {
    /// What to tell of the error in these tokens.
    pub fn message(&self, tokens: &[ArgToken]) -> (text: String)
        ensures
            text@ == arg_message(tokens@, *self),
    {
        match *self {
            ArgError::ExpectedIdent(i) => if i >= tokens.len() {
                "unexpected end of input, expected identifier".to_owned()
            } else {
                match &tokens[i] {
                    ArgToken::Keyword(word) => {
                        let mut text = joined(
                            "expected identifier, found keyword `",
                            word.as_str(),
                        );
                        text.append("`");
                        text
                    },
                    _ => "expected identifier".to_owned(),
                }
            },
            ArgError::ExpectedComma(_) => "expected `,`".to_owned(),
            ArgError::UnexpectedToken(_) => "unexpected token".to_owned(),
        }
    }
}

/// The arguments of `central_init!`: the peripherals, the interrupts, the
/// configuration and the flash, by the names of their bindings.
#[derive(Debug)]
pub struct CentralInitArgs {
    pub peripherals: String,
    pub irqs: String,
    pub rmk_config: String,
    pub flash: String,
}

/// The argument of `peripheral_init!`: the name of the peripherals' binding.
#[derive(Debug)]
pub struct PeripheralInitArgs {
    pub peripherals: String,
}

/// `args` are the four names in the tokens.
pub open spec fn reads(args: CentralInitArgs, tokens: Seq<ArgToken>) -> bool {
    &&& args.peripherals == arg_name(tokens, 0)
    &&& args.irqs == arg_name(tokens, 1)
    &&& args.rmk_config == arg_name(tokens, 2)
    &&& args.flash == arg_name(tokens, 3)
}

impl CentralInitArgs {
    /// Reads the arguments off the tokens of the call.
    pub fn parse(tokens: &[ArgToken]) -> (result: Result<CentralInitArgs, ArgError>)
        ensures
            match arg_error(tokens@, 4) {
                Some(error) => result == Err::<CentralInitArgs, ArgError>(error),
                None => result matches Ok(args) && reads(args, tokens@),
            },
    {
        match parse_idents(tokens, 4) {
            Ok(names) => Ok(
                CentralInitArgs {
                    peripherals: names[0].clone(),
                    irqs: names[1].clone(),
                    rmk_config: names[2].clone(),
                    flash: names[3].clone(),
                },
            ),
            Err(error) => Err(error),
        }
    }
}

impl PeripheralInitArgs {
    /// Reads the argument off the tokens of the call.
    pub fn parse(tokens: &[ArgToken]) -> (result: Result<PeripheralInitArgs, ArgError>)
        ensures
            match arg_error(tokens@, 1) {
                Some(error) => result == Err::<PeripheralInitArgs, ArgError>(error),
                None => result matches Ok(args) && args.peripherals == arg_name(tokens@, 0),
            },
    {
        match parse_idents(tokens, 1) {
            Ok(names) => Ok(PeripheralInitArgs { peripherals: names[0].clone() }),
            Err(error) => Err(error),
        }
    }
}

/// The tokens of a list of identifiers: each with a comma behind it, but for the
/// last.
pub open spec fn listed_tokens(names: Seq<String>) -> Seq<ArgToken> {
    Seq::new(
        (2 * names.len() - 1) as nat,
        |i: int|
            if i % 2 == 0 {
                ArgToken::Ident(names[i / 2])
            } else {
                ArgToken::Comma
            },
    )
}

/// Every list of identifiers is accepted, and gives its names back.
pub proof fn identifier_lists_parse(names: Seq<String>, k: int)
    requires
        names.len() >= 1,
        0 <= k < names.len(),
    ensures
        arg_error(listed_tokens(names), names.len()) is None,
        arg_name(listed_tokens(names), k) == names[k],
{
    lemma_all_fit(listed_tokens(names), 0, 2 * names.len() - 1);
}

/// Where everything fits there is no misfit.
proof fn lemma_all_fit(tokens: Seq<ArgToken>, i: int, end: int)
    requires
        0 <= i <= end,
        forall|k: int| i <= k < end ==> #[trigger] fits(tokens, k),
    ensures
        first_misfit(tokens, i, end) == end,
    decreases end - i,
{
    if i < end {
        assert(fits(tokens, i));
        lemma_all_fit(tokens, i + 1, end);
    }
}

/// Accepted arguments have as many tokens as the list needs.
pub proof fn lemma_accepted_length(tokens: Seq<ArgToken>, count: nat)
    requires
        count >= 1,
        arg_error(tokens, count) is None,
    ensures
        tokens.len() == 2 * count - 1,
{
    let end = 2 * count - 1;
    lemma_fits_before(tokens, 0, end, end - 1);
}

/// What is accepted is a list of identifiers: an identifier in every even place,
/// a comma in every odd one, and nothing behind.
pub proof fn accepted_arguments_are_lists(tokens: Seq<ArgToken>, count: nat, i: int)
    requires
        count >= 1,
        arg_error(tokens, count) is None,
        0 <= i < tokens.len(),
    ensures
        tokens.len() == 2 * count - 1,
        if i % 2 == 0 {
            tokens[i] is Ident
        } else {
            tokens[i] is Comma
        },
{
    lemma_accepted_length(tokens, count);
    lemma_fits_before(tokens, 0, 2 * count - 1, i);
}

} // verus!

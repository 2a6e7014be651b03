//! The boundary to `lexopt`, which cuts a command line into options and
//! values. Nothing in this file is proved: each item states what is taken on
//! trust from that crate.

use lexopt::ValueExt;
use vstd::prelude::*;

verus! {

/// `lexopt::Parser`, the cursor over the command line. Opaque here.
#[verifier::external_type_specification]
#[verifier::external_body]
pub struct ExParser(lexopt::Parser);

/// `lexopt::Error`, what the lexer reports. Opaque here; it is carried to the
/// caller unchanged.
#[verifier::external_type_specification]
#[verifier::external_body]
pub struct ExLexError(lexopt::Error);

/// One argument as the lexer hands it out.
#[derive(Clone, Debug, PartialEq, Eq)]
pub enum Token {
    /// A short option such as `-W`, without the dash.
    Short(char),
    /// A long option such as `--width`, without the dashes.
    Long(String),
    /// A free-standing argument.
    Value(String),
}

/// A token with its texts as character sequences.
pub enum TokenView {
    Short(char),
    Long(Seq<char>),
    Value(Seq<char>),
}

impl View for Token {
    type V = TokenView;

    open spec fn view(&self) -> TokenView {
        match *self {
            Token::Short(c) => TokenView::Short(c),
            Token::Long(name) => TokenView::Long(name@),
            Token::Value(text) => TokenView::Value(text@),
        }
    }
}

/// What a parser holds: where it stands on the command line and everything
/// it has not read yet, as bytes. First comes the rest of the argument it is
/// in the middle of, then every argument it has not begun.
pub uninterp spec fn unread(parser: lexopt::Parser) -> Seq<u8>;

/// What a parser made by `lexopt::Parser::from_args` holds before anything is
/// read from it.
pub uninterp spec fn opened(args: Seq<Seq<char>>) -> Seq<u8>;

/// What `lexopt::Parser::next` does to a parser that holds `held`: the
/// argument it hands out (`Some(None)` at the end of the command line, `None`
/// where it reports an error) and what the parser holds afterwards.
pub uninterp spec fn lexed_next(held: Seq<u8>) -> (Option<Option<TokenView>>, Seq<u8>);

/// What `lexopt::Parser::value` does to a parser that holds `held`: the value
/// it hands out (`None` where it reports an error) and what the parser holds
/// afterwards.
pub uninterp spec fn lexed_value(held: Seq<u8>) -> (Option<Seq<char>>, Seq<u8>);

/// Calls `lexopt::Parser::from_args` on the arguments after the program's
/// name.
///
/// Trusted: what the new parser holds depends on the arguments alone.
#[verifier::external_body]
pub(crate) fn open_parser(args: Vec<String>) -> (parser: lexopt::Parser)
    ensures
        unread(parser) == opened(args.deep_view()),
{
    lexopt::Parser::from_args(args)
}

/// Calls `lexopt::Parser::next` and turns the argument into a `Token`; a
/// free-standing argument is decoded with `ValueExt::string`.
///
/// Trusted: the outcome and what the parser holds afterwards depend only on
/// what it held before; and an argument is only ever handed out by reading
/// on, so whenever one comes back the parser holds less than before.
#[verifier::external_body]
pub(crate) fn next_token(parser: &mut lexopt::Parser) -> (r: Result<Option<Token>, lexopt::Error>)
    ensures
        unread(*final(parser)) == lexed_next(unread(*old(parser))).1,
        r matches Ok(Some(token)) ==> lexed_next(unread(*old(parser))).0 == Some(Some(token@)),
        r matches Ok(None) ==> lexed_next(unread(*old(parser))).0 == Some(None::<TokenView>),
        r is Err ==> lexed_next(unread(*old(parser))).0 is None,
        r matches Ok(Some(_)) ==> unread(*final(parser)).len() < unread(*old(parser)).len(),
{
    match parser.next()? {
        None => Ok(None),
        Some(lexopt::Arg::Short(c)) => Ok(Some(Token::Short(c))),
        Some(lexopt::Arg::Long(name)) => Ok(Some(Token::Long(name.to_owned()))),
        Some(lexopt::Arg::Value(value)) => Ok(Some(Token::Value(value.string()?))),
    }
}

/// Calls `lexopt::Parser::value` for the value of the option just seen and
/// decodes it with `ValueExt::string`.
///
/// Trusted: the outcome and what the parser holds afterwards depend only on
/// what it held before; and a value is taken from what the parser holds, so
/// the parser never holds more afterwards.
#[verifier::external_body]
pub(crate) fn next_value(parser: &mut lexopt::Parser) -> (r: Result<String, lexopt::Error>)
    ensures
        unread(*final(parser)) == lexed_value(unread(*old(parser))).1,
        r matches Ok(text) ==> lexed_value(unread(*old(parser))).0 == Some(text@),
        r is Err ==> lexed_value(unread(*old(parser))).0 is None,
        r is Ok ==> unread(*final(parser)).len() <= unread(*old(parser)).len(),
{
    parser.value()?.string()
}

/// Calls `lexopt::Arg::unexpected`, which turns an argument that has no place
/// into the lexer's error for it. Nothing is claimed of the error.
#[verifier::external_body]
pub(crate) fn unexpected(token: Token) -> (e: lexopt::Error) {
    match token {
        Token::Short(c) => lexopt::Arg::Short(c).unexpected(),
        Token::Long(name) => lexopt::Arg::Long(&name).unexpected(),
        Token::Value(value) => lexopt::Arg::Value(value.into()).unexpected(),
    }
}

} // verus!

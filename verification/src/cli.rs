//! The command line: which options there are, what they default to, and how a
//! list of arguments becomes the settings of a run.

use crate::canvas::{Canvas, CanvasError};
use crate::lexer::{
    lexed_next,
    lexed_value,
    next_token,
    next_value,
    open_parser,
    opened,
    unexpected,
    unread,
    Token,
    TokenView,
};
use crate::number::{parse_decimal, parse_decimal_spec, NumberError};
use vstd::prelude::*;

verus! {

/// Target width when none is given.
pub const DEFAULT_WIDTH: usize = 4096;

/// Target height when none is given.
pub const DEFAULT_HEIGHT: usize = 4096;

/// Supersampling factor when none is given.
pub const DEFAULT_SUPERSAMPLING: usize = 1;

/// The line printed for `-h` and `--help`.
pub const USAGE: &'static str =
    "Usage: tinybrot [-W|--width=NUM] [-H|--height=NUM] [-s|--supersample=NUM] [-c|--color=SCHEME] out.png";

/// Why a command line is refused.
#[derive(Debug)]
pub enum CliError {
    /// The lexer refused it: an option without its value, an option or an
    /// argument that has no place.
    Lexer(lexopt::Error),
    /// The value of a numeric option is not a number.
    InvalidNumber { value: String, kind: NumberError },
    /// No output path was given.
    MissingOutput,
    /// The dimensions have no canvas.
    Canvas(CanvasError),
}

/// An error with its texts as character sequences and without what the lexer
/// said.
pub enum CliErrorView {
    Lexer,
    InvalidNumber { value: Seq<char>, kind: NumberError },
    MissingOutput,
    Canvas(CanvasError),
}

impl View for CliError {
    type V = CliErrorView;

    open spec fn view(&self) -> CliErrorView {
        match *self {
            CliError::Lexer(_) => CliErrorView::Lexer,
            CliError::InvalidNumber { value, kind } => CliErrorView::InvalidNumber {
                value: value@,
                kind,
            },
            CliError::MissingOutput => CliErrorView::MissingOutput,
            CliError::Canvas(e) => CliErrorView::Canvas(e),
        }
    }
}

/// An option that is followed by a value.
#[derive(Clone, Copy, Debug, PartialEq, Eq, Structural)]
pub enum Field {
    Width,
    Height,
    Supersample,
    Color,
}

/// What an argument asks for.
#[derive(Debug)]
pub enum Meaning {
    /// An option whose value comes next.
    Takes(Field),
    /// The output path.
    Output(String),
    /// The usage line.
    Help,
    /// Nothing: the argument has no place.
    Unexpected(Token),
}

/// A meaning with its texts as character sequences.
pub enum MeaningView {
    Takes(Field),
    Output(Seq<char>),
    Help,
    Unexpected(TokenView),
}

impl View for Meaning {
    type V = MeaningView;

    open spec fn view(&self) -> MeaningView {
        match *self {
            Meaning::Takes(field) => MeaningView::Takes(field),
            Meaning::Output(path) => MeaningView::Output(path@),
            Meaning::Help => MeaningView::Help,
            Meaning::Unexpected(token) => MeaningView::Unexpected(token@),
        }
    }
}

/// What has been gathered from the arguments read so far.
#[derive(Clone, Debug, PartialEq, Eq)]
pub struct Settings {
    pub w: usize,
    pub h: usize,
    pub supersampling: usize,
    pub scheme: Option<String>,
    pub outfile: Option<String>,
}

/// Settings with their texts as character sequences.
pub struct SettingsView {
    pub w: usize,
    pub h: usize,
    pub supersampling: usize,
    pub scheme: Option<Seq<char>>,
    pub outfile: Option<Seq<char>>,
}

/// The text of an optional string.
pub open spec fn text_of(s: Option<String>) -> Option<Seq<char>> {
    match s {
        Some(text) => Some(text@),
        None => None,
    }
}

impl View for Settings {
    type V = SettingsView;

    open spec fn view(&self) -> SettingsView {
        SettingsView {
            w: self.w,
            h: self.h,
            supersampling: self.supersampling,
            scheme: text_of(self.scheme),
            outfile: text_of(self.outfile),
        }
    }
}

/// The settings of a run, complete and checked.
#[derive(Clone, Debug, PartialEq, Eq)]
pub struct Config {
    pub canvas: Canvas,
    /// The palette asked for by name, if any.
    pub scheme: Option<String>,
    pub outfile: String,
}

/// A configuration with its texts as character sequences.
pub struct ConfigView {
    pub canvas: Canvas,
    pub scheme: Option<Seq<char>>,
    pub outfile: Seq<char>,
}

impl View for Config {
    type V = ConfigView;

    open spec fn view(&self) -> ConfigView {
        ConfigView { canvas: self.canvas, scheme: text_of(self.scheme), outfile: self.outfile@ }
    }
}

/// What the command line asks the program to do.
#[derive(Debug)]
pub enum Invocation {
    Render(Config),
    Help,
}

/// An invocation with its texts as character sequences.
pub enum InvocationView {
    Render(ConfigView),
    Help,
}

impl View for Invocation {
    type V = InvocationView;

    open spec fn view(&self) -> InvocationView {
        match *self {
            Invocation::Render(config) => InvocationView::Render(config@),
            Invocation::Help => InvocationView::Help,
        }
    }
}

/// `token` is the option written `-short` or `--long`.
pub open spec fn names_option(token: TokenView, short: char, long: &str) -> bool {
    match token {
        TokenView::Short(c) => c == short,
        TokenView::Long(name) => name == long@,
        TokenView::Value(_) => false,
    }
}

/// The meaning of an argument, given whether a palette and an output path
/// have been seen already. A second palette option and a second free-standing
/// argument have no place.
pub open spec fn meaning_of(token: TokenView, have_scheme: bool, have_outfile: bool) -> MeaningView {
    if names_option(token, 'W', "width") {
        MeaningView::Takes(Field::Width)
    } else if names_option(token, 'H', "height") {
        MeaningView::Takes(Field::Height)
    } else if names_option(token, 's', "supersample") {
        MeaningView::Takes(Field::Supersample)
    } else if names_option(token, 'c', "color") && !have_scheme {
        MeaningView::Takes(Field::Color)
    } else if token is Value && !have_outfile {
        MeaningView::Output(token->Value_0)
    } else if names_option(token, 'h', "help") {
        MeaningView::Help
    } else {
        MeaningView::Unexpected(token)
    }
}

/// The settings before any argument is read: 4096 by 4096, no
/// supersampling, no palette named, no output path.
pub open spec fn initial_settings() -> SettingsView {
    SettingsView {
        w: DEFAULT_WIDTH,
        h: DEFAULT_HEIGHT,
        supersampling: DEFAULT_SUPERSAMPLING,
        scheme: None,
        outfile: None,
    }
}

/// The settings after `text` was given as the value of `field`, or the error
/// when a numeric option's value is not a number.
pub open spec fn stored(settings: SettingsView, field: Field, text: Seq<char>) -> Result<
    SettingsView,
    CliErrorView,
> {
    match field {
        Field::Color => Ok(SettingsView { scheme: Some(text), ..settings }),
        _ => match parse_decimal_spec(text) {
            Err(kind) => Err(CliErrorView::InvalidNumber { value: text, kind }),
            Ok(n) => Ok(
                match field {
                    Field::Width => SettingsView { w: n, ..settings },
                    Field::Height => SettingsView { h: n, ..settings },
                    _ => SettingsView { supersampling: n, ..settings },
                },
            ),
        },
    }
}

/// The finished configuration: the output path is required, and the
/// dimensions must have a canvas. A missing path is reported first.
pub open spec fn finished(settings: SettingsView) -> Result<ConfigView, CliErrorView> {
    match settings.outfile {
        None => Err(CliErrorView::MissingOutput),
        Some(path) => match Canvas::spec_new(settings.w, settings.h, settings.supersampling) {
            Err(e) => Err(CliErrorView::Canvas(e)),
            Ok(canvas) => Ok(ConfigView { canvas, scheme: settings.scheme, outfile: path }),
        },
    }
}

/// What comes of the settings at the end of the command line.
pub open spec fn closed(settings: SettingsView) -> Result<InvocationView, CliErrorView> {
    match finished(settings) {
        Err(e) => Err(e),
        Ok(config) => Ok(InvocationView::Render(config)),
    }
}

/// What comes of reading on from a parser that holds `held`, with `settings`
/// gathered so far.
///
/// Arguments are taken one by one. An option that takes a value is followed
/// by its value, which is stored; the first free-standing argument is the
/// output path; `-h` or `--help` ends the reading at once; an argument without
/// a place, and whatever the lexer refuses, is an error. At the end of the
/// command line the settings are finished.
///
/// The two comparisons of lengths hold of every parser; they are written
/// down so that the definition is well-founded.
pub open spec fn parsed(held: Seq<u8>, settings: SettingsView) -> Result<
    InvocationView,
    CliErrorView,
>
    decreases held.len(),
{
    let (token, rest) = lexed_next(held);
    match token {
        None => Err(CliErrorView::Lexer),
        Some(None) => closed(settings),
        Some(Some(token)) => if rest.len() >= held.len() {
            Err(CliErrorView::Lexer)
        } else {
            match meaning_of(token, settings.scheme is Some, settings.outfile is Some) {
                MeaningView::Takes(field) => {
                    let (value, after) = lexed_value(rest);
                    match value {
                        None => Err(CliErrorView::Lexer),
                        Some(text) => if after.len() > rest.len() {
                            Err(CliErrorView::Lexer)
                        } else {
                            match stored(settings, field, text) {
                                Err(e) => Err(e),
                                Ok(next) => parsed(after, next),
                            }
                        },
                    }
                },
                MeaningView::Output(path) => parsed(
                    rest,
                    SettingsView { outfile: Some(path), ..settings },
                ),
                MeaningView::Help => Ok(InvocationView::Help),
                MeaningView::Unexpected(_) => Err(CliErrorView::Lexer),
            }
        },
    }
}

/// The outcome of a parse with its texts as character sequences.
pub open spec fn outcome_view(r: Result<Invocation, CliError>) -> Result<
    InvocationView,
    CliErrorView,
> {
    match r {
        Ok(invocation) => Ok(invocation@),
        Err(e) => Err(e@),
    }
}

fn names(token: &Token, short: char, long: &str) -> (r: bool)
    ensures
        r == names_option(token@, short, long),
{
    match token {
        Token::Short(c) => *c == short,
        Token::Long(name) => *name == long.to_owned(),
        Token::Value(_) => false,
    }
}

/// Decides what an argument asks for.
pub fn classify(token: Token, have_scheme: bool, have_outfile: bool) -> (r: Meaning)
    ensures
        r@ == meaning_of(token@, have_scheme, have_outfile),
{
    if names(&token, 'W', "width") {
        Meaning::Takes(Field::Width)
    } else if names(&token, 'H', "height") {
        Meaning::Takes(Field::Height)
    } else if names(&token, 's', "supersample") {
        Meaning::Takes(Field::Supersample)
    } else if !have_scheme && names(&token, 'c', "color") {
        Meaning::Takes(Field::Color)
    } else {
        match token {
            Token::Value(path) => if have_outfile {
                Meaning::Unexpected(Token::Value(path))
            } else {
                Meaning::Output(path)
            },
            other => if names(&other, 'h', "help") {
                Meaning::Help
            } else {
                Meaning::Unexpected(other)
            },
        }
    }
}

impl Settings {
    /// The defaults.
    pub fn new() -> (r: Settings)
        ensures
            r@ == initial_settings(),
    {
        Settings {
            w: DEFAULT_WIDTH,
            h: DEFAULT_HEIGHT,
            supersampling: DEFAULT_SUPERSAMPLING,
            scheme: None,
            outfile: None,
        }
    }

    /// Records `text` as the value of `field`.
    pub fn store(self, field: Field, text: String) -> (r: Result<Settings, CliError>)
        ensures
            match r {
                Ok(next) => stored(self@, field, text@) == Ok::<SettingsView, CliErrorView>(next@),
                Err(e) => stored(self@, field, text@) == Err::<SettingsView, CliErrorView>(e@),
            },
    {
        let mut next = self;
        match field {
            Field::Color => {
                next.scheme = Some(text);
                Ok(next)
            },
            _ => match parse_decimal(text.as_str()) {
                Err(kind) => Err(CliError::InvalidNumber { value: text, kind }),
                Ok(n) => {
                    match field {
                        Field::Width => {
                            next.w = n;
                        },
                        Field::Height => {
                            next.h = n;
                        },
                        _ => {
                            next.supersampling = n;
                        },
                    }
                    Ok(next)
                },
            },
        }
    }

    /// Records the output path.
    pub fn with_outfile(self, path: String) -> (r: Settings)
        ensures
            r@ == (SettingsView { outfile: Some(path@), ..self@ }),
    {
        let mut next = self;
        next.outfile = Some(path);
        next
    }

    /// Closes the settings into a configuration.
    pub fn finish(self) -> (r: Result<Config, CliError>)
        ensures
            match r {
                Ok(config) => finished(self@) == Ok::<ConfigView, CliErrorView>(config@)
                    && config.canvas.wf(),
                Err(e) => finished(self@) == Err::<ConfigView, CliErrorView>(e@),
            },
    {
        match self.outfile {
            None => Err(CliError::MissingOutput),
            Some(path) => match Canvas::new(self.w, self.h, self.supersampling) {
                Err(e) => Err(CliError::Canvas(e)),
                Ok(canvas) => Ok(Config { canvas, scheme: self.scheme, outfile: path }),
            },
        }
    }
}

/// Reads the arguments that follow the program's name.
///
/// The lexer decides where one argument ends and the next begins; the
/// outcome is what `parsed` makes of its answers, starting from the defaults.
/// A configuration that comes back has a well-formed canvas.
pub fn parse_args(args: Vec<String>) -> (r: Result<Invocation, CliError>)
    ensures
        outcome_view(r) == parsed(opened(args.deep_view()), initial_settings()),
        r matches Ok(Invocation::Render(config)) ==> config.canvas.wf(),
{
    let ghost start = opened(args.deep_view());
    let mut parser = open_parser(args);
    let mut settings = Settings::new();
    loop
        invariant_except_break
            start == opened(args.deep_view()),
            parsed(start, initial_settings()) == parsed(unread(parser), settings@),
        ensures
            parsed(opened(args.deep_view()), initial_settings()) == closed(settings@),
        decreases unread(parser).len(),
    {
        let token = match next_token(&mut parser) {
            Err(e) => {
                return Err(CliError::Lexer(e));
            },
            Ok(None) => {
                break ;
            },
            Ok(Some(token)) => token,
        };
        let have_scheme = settings.scheme.is_some();
        let have_outfile = settings.outfile.is_some();
        match classify(token, have_scheme, have_outfile) {
            Meaning::Takes(field) => {
                let text = match next_value(&mut parser) {
                    Err(e) => {
                        return Err(CliError::Lexer(e));
                    },
                    Ok(text) => text,
                };
                settings = match settings.store(field, text) {
                    Err(e) => {
                        return Err(e);
                    },
                    Ok(next) => next,
                };
            },
            Meaning::Output(path) => {
                settings = settings.with_outfile(path);
            },
            Meaning::Help => {
                return Ok(Invocation::Help);
            },
            Meaning::Unexpected(token) => {
                return Err(CliError::Lexer(unexpected(token)));
            },
        }
    }
    match settings.finish() {
        Err(e) => Err(e),
        Ok(config) => Ok(Invocation::Render(config)),
    }
}

} // verus!

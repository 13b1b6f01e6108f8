use owo_colors::OwoColorize;
use vstd::prelude::*;
use vstd::string::StringExecFns;

use crate::errors::{describe_spec, ProplateError};

verus! {

/// The select-graphic-rendition sequence `ESC [ code m`.
pub open spec fn sgr(code: Seq<char>) -> Seq<char> {
    seq!['\u{1b}', '['] + code + seq!['m']
}

/// `s` in the foreground colour `code`, followed by the reset of the foreground colour.
pub open spec fn in_color(code: Seq<char>, s: Seq<char>) -> Seq<char> {
    sgr(code) + s + sgr(seq!['3', '9'])
}

/// `s` in bold, followed by the reset of every attribute.
pub open spec fn in_bold(s: Seq<char>) -> Seq<char> {
    sgr(seq!['1']) + s + sgr(seq!['0'])
}

pub open spec fn red_code() -> Seq<char> {
    seq!['3', '1']
}

pub open spec fn blue_code() -> Seq<char> {
    seq!['3', '4']
}

pub open spec fn white_code() -> Seq<char> {
    seq!['3', '7']
}

pub open spec fn bright_green_code() -> Seq<char> {
    seq!['9', '2']
}

pub open spec fn bright_yellow_code() -> Seq<char> {
    seq!['9', '3']
}

/// Relies on owo_colors' `bold`: its Display writes `ESC[1m`, the text, `ESC[0m`.
#[verifier::external_body]
fn bold(s: &str) -> (r: String)
    ensures
        r@ == in_bold(s@),
{
    s.bold().to_string()
}

/// Relies on owo_colors' `red`: its Display writes `ESC[31m`, the text, `ESC[39m`.
#[verifier::external_body]
fn red(s: &str) -> (r: String)
    ensures
        r@ == in_color(red_code(), s@),
{
    s.red().to_string()
}

/// Relies on owo_colors' `blue`: its Display writes `ESC[34m`, the text, `ESC[39m`.
#[verifier::external_body]
fn blue(s: &str) -> (r: String)
    ensures
        r@ == in_color(blue_code(), s@),
{
    s.blue().to_string()
}

/// Relies on owo_colors' `white`: its Display writes `ESC[37m`, the text, `ESC[39m`.
#[verifier::external_body]
fn white(s: &str) -> (r: String)
    ensures
        r@ == in_color(white_code(), s@),
{
    s.white().to_string()
}

/// Relies on owo_colors' `bright_green`: its Display writes `ESC[92m`, the text, `ESC[39m`.
#[verifier::external_body]
fn bright_green(s: &str) -> (r: String)
    ensures
        r@ == in_color(bright_green_code(), s@),
{
    s.bright_green().to_string()
}

/// Relies on owo_colors' `bright_yellow`: its Display writes `ESC[93m`, the text, `ESC[39m`.
#[verifier::external_body]
fn bright_yellow(s: &str) -> (r: String)
    ensures
        r@ == in_color(bright_yellow_code(), s@),
{
    s.bright_yellow().to_string()
}

/// A section title: a blank line, then the text in bold bright yellow.
pub fn title(s: &str) -> (r: String)
    ensures
        r@ == seq!['\n'] + in_color(bright_yellow_code(), in_bold(s@)),
{
    let b = bold(s);
    let colored = bright_yellow(b.as_str());
    let mut r = String::from_str("\n");
    r.append(colored.as_str());
    proof {
        reveal_strlit("\n");
    }
    r
}

/// A step line: a blue `>`, a space, then the text in white.
pub fn step(s: &str) -> (r: String)
    ensures
        r@ == in_color(blue_code(), seq!['>']) + seq![' '] + in_color(white_code(), s@),
{
    let mut r = blue(">");
    r.append(" ");
    let w = white(s);
    r.append(w.as_str());
    proof {
        reveal_strlit(">");
        reveal_strlit(" ");
    }
    r
}

/// The text in red.
pub fn error(s: &str) -> (r: String)
    ensures
        r@ == in_color(red_code(), s@),
{
    red(s)
}

/// The text in bright yellow.
pub fn warn(s: &str) -> (r: String)
    ensures
        r@ == in_color(bright_yellow_code(), s@),
{
    bright_yellow(s)
}

/// A blank line, then the text in bright green.
pub fn success(s: &str) -> (r: String)
    ensures
        r@ == seq!['\n'] + in_color(bright_green_code(), s@),
{
    let g = bright_green(s);
    let mut r = String::from_str("\n");
    r.append(g.as_str());
    proof {
        reveal_strlit("\n");
    }
    r
}

/// A value that can render itself as an error line for the terminal.
pub trait AsError {
    /// The error line.
    spec fn printed(&self) -> Seq<char>;

    fn print_err(&self) -> (r: String)
        ensures
            r@ == self.printed(),
    ;
}

impl AsError for ProplateError {
    /// The error's diagnostic in red.
    open spec fn printed(&self) -> Seq<char> {
        in_color(red_code(), describe_spec(*self))
    }

    fn print_err(&self) -> (r: String) {
        let d = self.describe();
        error(d.as_str())
    }
}

} // verus!

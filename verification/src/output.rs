//! Colours for the terminal: which colour a status, a priority or a type
//! is shown in.
//!
//! The colouring itself is done by the `colored` crate, which decides by
//! the terminal and the environment whether it adds escape sequences at
//! all. What is decided here is the style that each word gets; what is
//! known of the coloured text is that it is the word, either as it is or
//! between the escape sequences of its style. A word that holds the
//! closing escape sequence itself is never handed to `colored`, which
//! would write into it: it is shown as it is.

use vstd::prelude::*;
use vstd::string::*;
use colored::Colorize;
use crate::text::{chars_of, contains, find, occurs_at, text_eq};

verus! {

/// The styles in use.
#[derive(Debug, Clone, Copy, PartialEq, Eq, Structural)]
pub enum Style {
    Plain,
    Green,
    Yellow,
    Red,
    RedDimmed,
    RedBold,
    Cyan,
    Blue,
    Magenta,
    Dimmed,
    Bold,
}

/// The escape sequence that ends every style.
pub open spec fn reset_code() -> Seq<char> {
    "\x1b[0m"@
}

/// The escape sequence that starts `style`: the numbers of its weight and
/// of its colour. Plain text has none.
pub open spec fn style_code(style: Style) -> Seq<char> {
    match style {
        Style::Plain => Seq::empty(),
        Style::Green => "\x1b[32m"@,
        Style::Yellow => "\x1b[33m"@,
        Style::Red => "\x1b[31m"@,
        Style::RedDimmed => "\x1b[2;31m"@,
        Style::RedBold => "\x1b[1;31m"@,
        Style::Cyan => "\x1b[36m"@,
        Style::Blue => "\x1b[34m"@,
        Style::Magenta => "\x1b[35m"@,
        Style::Dimmed => "\x1b[2m"@,
        Style::Bold => "\x1b[1m"@,
    }
}

/// Whether `shown` is `text` as it is written under the style that `code`
/// starts: `text` as it is where colours are off, and `text` between
/// `code` and the closing sequence where they are on. Where another
/// thread switches colours off while the text is written, the closing
/// sequence may follow a text that has no `code` in front.
pub open spec fn shows(shown: Seq<char>, text: Seq<char>, code: Seq<char>) -> bool {
    ||| shown == text
    ||| shown == code + text + reset_code()
    ||| shown == text + reset_code()
}

/// Whether `text` stands somewhere in `shown`, unchanged.
pub open spec fn holds_text(shown: Seq<char>, text: Seq<char>) -> bool {
    exists|at: int| occurs_at(shown, text, at)
}

/// What shows a text holds it: whether colours are on or off, the text
/// stands in what is written, letter for letter.
pub proof fn law_shown_text_is_held(shown: Seq<char>, text: Seq<char>, code: Seq<char>)
    requires
        shows(shown, text, code),
    ensures
        holds_text(shown, text),
{
    if shown == text {
        assert(shown.subrange(0, text.len() as int) =~= text);
        assert(occurs_at(shown, text, 0));
    } else if shown == code + text + reset_code() {
        assert(shown.subrange(code.len() as int, (code.len() + text.len()) as int) =~= text);
        assert(occurs_at(shown, text, code.len() as int));
    } else {
        assert(shown.subrange(0, text.len() as int) =~= text);
        assert(occurs_at(shown, text, 0));
    }
}

/// `s` in small letters, as `str::to_lowercase` gives it.
pub uninterp spec fn lowercase(s: Seq<char>) -> Seq<char>;

/// `str::to_lowercase`: the small-letter form of `s`.
#[verifier::external_body]
fn to_lower(s: &str) -> (r: String)
    ensures
        r@ == lowercase(s@),
{
    s.to_lowercase()
}

/// `colored::Colorize::green`, written out: `text` in green where the
/// terminal takes colours, else as it is. Nothing is said of a text that
/// holds the closing sequence itself.
#[verifier::external_body]
fn green(text: &str) -> (r: String)
    ensures
        !contains(text@, reset_code()) ==> shows(r@, text@, "\x1b[32m"@),
{
    text.green().to_string()
}

/// `colored::Colorize::yellow`, written out; see `green`.
#[verifier::external_body]
fn yellow(text: &str) -> (r: String)
    ensures
        !contains(text@, reset_code()) ==> shows(r@, text@, "\x1b[33m"@),
{
    text.yellow().to_string()
}

/// `colored::Colorize::red`, written out; see `green`.
#[verifier::external_body]
fn red(text: &str) -> (r: String)
    ensures
        !contains(text@, reset_code()) ==> shows(r@, text@, "\x1b[31m"@),
{
    text.red().to_string()
}

/// `colored::Colorize::red` and then `dimmed`, written out; see `green`.
#[verifier::external_body]
fn red_dimmed(text: &str) -> (r: String)
    ensures
        !contains(text@, reset_code()) ==> shows(r@, text@, "\x1b[2;31m"@),
{
    text.red().dimmed().to_string()
}

/// `colored::Colorize::red` and then `bold`, written out; see `green`.
#[verifier::external_body]
fn red_bold(text: &str) -> (r: String)
    ensures
        !contains(text@, reset_code()) ==> shows(r@, text@, "\x1b[1;31m"@),
{
    text.red().bold().to_string()
}

/// `colored::Colorize::cyan`, written out; see `green`.
#[verifier::external_body]
fn cyan(text: &str) -> (r: String)
    ensures
        !contains(text@, reset_code()) ==> shows(r@, text@, "\x1b[36m"@),
{
    text.cyan().to_string()
}

/// `colored::Colorize::blue`, written out; see `green`.
#[verifier::external_body]
fn blue(text: &str) -> (r: String)
    ensures
        !contains(text@, reset_code()) ==> shows(r@, text@, "\x1b[34m"@),
{
    text.blue().to_string()
}

/// `colored::Colorize::magenta`, written out; see `green`.
#[verifier::external_body]
fn magenta(text: &str) -> (r: String)
    ensures
        !contains(text@, reset_code()) ==> shows(r@, text@, "\x1b[35m"@),
{
    text.magenta().to_string()
}

/// `colored::Colorize::dimmed`, written out; see `green`.
#[verifier::external_body]
fn dimmed(text: &str) -> (r: String)
    ensures
        !contains(text@, reset_code()) ==> shows(r@, text@, "\x1b[2m"@),
{
    text.dimmed().to_string()
}

/// `colored::Colorize::bold`, written out; see `green`.
#[verifier::external_body]
fn bolded(text: &str) -> (r: String)
    ensures
        !contains(text@, reset_code()) ==> shows(r@, text@, "\x1b[1m"@),
{
    text.bold().to_string()
}

/// Whether `text` holds the closing escape sequence.
fn holds_reset(text: &str) -> (r: bool)
    ensures
        r == contains(text@, reset_code()),
{
    let chars = chars_of(text);
    let reset = chars_of("\x1b[0m");
    find(&chars, &reset, 0).is_some()
}

/// `text` in `style`: as it is, or between the escape sequence of the
/// style and the closing one, as the terminal and the environment have
/// it. Plain text comes back unchanged, and so does a text that holds the
/// closing sequence itself. Whatever comes back holds `text`.
pub fn paint(text: &str, style: Style) -> (r: String)
    ensures
        shows(r@, text@, style_code(style)),
        style == Style::Plain || contains(text@, reset_code()) ==> r@ == text@,
        holds_text(r@, text@),
{
    let painted = if holds_reset(text) {
        String::from_str(text)
    } else {
        match style {
            Style::Plain => String::from_str(text),
            Style::Green => green(text),
            Style::Yellow => yellow(text),
            Style::Red => red(text),
            Style::RedDimmed => red_dimmed(text),
            Style::RedBold => red_bold(text),
            Style::Cyan => cyan(text),
            Style::Blue => blue(text),
            Style::Magenta => magenta(text),
            Style::Dimmed => dimmed(text),
            Style::Bold => bolded(text),
        }
    };
    proof {
        law_shown_text_is_held(painted@, text@, style_code(style));
    }
    painted
}

/// The style of a project, ticket or milestone status, given in small
/// letters: green for what is live, yellow for what waits, red for what is
/// done, dimmed red for what was dropped, plain for any other word.
pub open spec fn status_style_of(status: Seq<char>) -> Style {
    if status == "active"@ || status == "open"@ || status == "new"@ {
        Style::Green
    } else if status == "on_hold"@ || status == "on hold"@ || status == "in_progress"@ || status
        == "in progress"@ {
        Style::Yellow
    } else if status == "archived"@ || status == "closed"@ || status == "completed"@ || status
        == "resolved"@ {
        Style::Red
    } else if status == "cancelled"@ || status == "rejected"@ {
        Style::RedDimmed
    } else {
        Style::Plain
    }
}

/// The style of the status `status`, given in small letters.
pub fn status_style(status: &str) -> (s: Style)
    ensures
        s == status_style_of(status@),
{
    if text_eq(status, "active") || text_eq(status, "open") || text_eq(status, "new") {
        Style::Green
    } else if text_eq(status, "on_hold") || text_eq(status, "on hold") || text_eq(
        status,
        "in_progress",
    ) || text_eq(status, "in progress") {
        Style::Yellow
    } else if text_eq(status, "archived") || text_eq(status, "closed") || text_eq(
        status,
        "completed",
    ) || text_eq(status, "resolved") {
        Style::Red
    } else if text_eq(status, "cancelled") || text_eq(status, "rejected") {
        Style::RedDimmed
    } else {
        Style::Plain
    }
}

/// The style of a priority, given in small letters.
pub open spec fn priority_style_of(priority: Seq<char>) -> Style {
    if priority == "critical"@ {
        Style::RedBold
    } else if priority == "high"@ {
        Style::Red
    } else if priority == "normal"@ || priority == "medium"@ {
        Style::Yellow
    } else if priority == "low"@ {
        Style::Green
    } else {
        Style::Plain
    }
}

/// The style of the priority `priority`, given in small letters.
pub fn priority_style(priority: &str) -> (s: Style)
    ensures
        s == priority_style_of(priority@),
{
    if text_eq(priority, "critical") {
        Style::RedBold
    } else if text_eq(priority, "high") {
        Style::Red
    } else if text_eq(priority, "normal") || text_eq(priority, "medium") {
        Style::Yellow
    } else if text_eq(priority, "low") {
        Style::Green
    } else {
        Style::Plain
    }
}

/// The style of a ticket type, given in small letters.
pub open spec fn ticket_type_style_of(ticket_type: Seq<char>) -> Style {
    if ticket_type == "bug"@ {
        Style::Red
    } else if ticket_type == "enhancement"@ || ticket_type == "feature"@ {
        Style::Cyan
    } else if ticket_type == "task"@ {
        Style::Blue
    } else {
        Style::Plain
    }
}

/// The style of the ticket type `ticket_type`, given in small letters.
pub fn ticket_type_style(ticket_type: &str) -> (s: Style)
    ensures
        s == ticket_type_style_of(ticket_type@),
{
    if text_eq(ticket_type, "bug") {
        Style::Red
    } else if text_eq(ticket_type, "enhancement") || text_eq(ticket_type, "feature") {
        Style::Cyan
    } else if text_eq(ticket_type, "task") {
        Style::Blue
    } else {
        Style::Plain
    }
}

/// The style of a merge request status, given in small letters.
pub open spec fn mr_status_style_of(status: Seq<char>) -> Style {
    if status == "new"@ || status == "open"@ {
        Style::Green
    } else if status == "merged"@ {
        Style::Magenta
    } else if status == "closed"@ || status == "rejected"@ {
        Style::Red
    } else {
        Style::Plain
    }
}

/// The style of the merge request status `status`, given in small
/// letters.
pub fn mr_status_style(status: &str) -> (s: Style)
    ensures
        s == mr_status_style_of(status@),
{
    if text_eq(status, "new") || text_eq(status, "open") {
        Style::Green
    } else if text_eq(status, "merged") {
        Style::Magenta
    } else if text_eq(status, "closed") || text_eq(status, "rejected") {
        Style::Red
    } else {
        Style::Plain
    }
}

/// `status` in the colour of its kind, whatever its case. A status of no
/// known kind comes back unchanged.
pub fn colorize_status(status: &str) -> (r: String)
    ensures
        shows(r@, status@, style_code(status_style_of(lowercase(status@)))),
        status_style_of(lowercase(status@)) == Style::Plain || contains(status@, reset_code()) ==> r@
            == status@,
        holds_text(r@, status@),
{
    let lowered = to_lower(status);
    paint(status, status_style(lowered.as_str()))
}

/// `priority` in the colour of its rank, whatever its case. An unknown
/// priority comes back unchanged.
pub fn colorize_priority(priority: &str) -> (r: String)
    ensures
        shows(r@, priority@, style_code(priority_style_of(lowercase(priority@)))),
        priority_style_of(lowercase(priority@)) == Style::Plain || contains(priority@, reset_code()) ==> r@
            == priority@,
        holds_text(r@, priority@),
{
    let lowered = to_lower(priority);
    paint(priority, priority_style(lowered.as_str()))
}

/// `ticket_type` in the colour of its kind, whatever its case. An unknown
/// type comes back unchanged.
pub fn colorize_ticket_type(ticket_type: &str) -> (r: String)
    ensures
        shows(r@, ticket_type@, style_code(ticket_type_style_of(lowercase(ticket_type@)))),
        ticket_type_style_of(lowercase(ticket_type@)) == Style::Plain || contains(ticket_type@, reset_code()) ==> r@
            == ticket_type@,
        holds_text(r@, ticket_type@),
{
    let lowered = to_lower(ticket_type);
    paint(ticket_type, ticket_type_style(lowered.as_str()))
}

/// `status` in the colour of its kind, whatever its case. An unknown
/// status comes back unchanged.
pub fn colorize_mr_status(status: &str) -> (r: String)
    ensures
        shows(r@, status@, style_code(mr_status_style_of(lowercase(status@)))),
        mr_status_style_of(lowercase(status@)) == Style::Plain || contains(status@, reset_code()) ==> r@
            == status@,
        holds_text(r@, status@),
{
    let lowered = to_lower(status);
    paint(status, mr_status_style(lowered.as_str()))
}

/// `true_label` in green where `val` holds, else `false_label` in red.
pub fn colorize_bool(val: bool, true_label: &str, false_label: &str) -> (r: String)
    ensures
        val ==> shows(r@, true_label@, style_code(Style::Green)) && holds_text(r@, true_label@),
        !val ==> shows(r@, false_label@, style_code(Style::Red)) && holds_text(
            r@,
            false_label@,
        ),
{
    if val {
        paint(true_label, Style::Green)
    } else {
        paint(false_label, Style::Red)
    }
}

/// `text` dimmed.
pub fn dim(text: &str) -> (r: String)
    ensures
        shows(r@, text@, style_code(Style::Dimmed)),
        holds_text(r@, text@),
{
    paint(text, Style::Dimmed)
}

/// `text` in bold.
pub fn bold(text: &str) -> (r: String)
    ensures
        shows(r@, text@, style_code(Style::Bold)),
        holds_text(r@, text@),
{
    paint(text, Style::Bold)
}

} // verus!

//! Presentation tokens: the text that stands for a tier and the class of
//! colour it is shown in, and the colour that a class has in each place.

use crate::divergence::DivergenceTier;
use crate::hygiene::{edition_of, ComplianceTier, EditionTier, NonCompliance};
use crate::text::{decimal, padded_left, same_text, zero_padded};
use vstd::prelude::*;

verus! {

/// The class of colour that a token is shown in.
#[derive(Clone, Copy, Debug, PartialEq, Eq, Structural)]
pub enum ColorClass {
    Positive,
    Warning,
    Negative,
    Neutral,
}

/// A piece of text with its colour class.
#[derive(Clone, Debug, PartialEq, Eq)]
pub struct Token {
    pub symbol: String,
    pub color: ColorClass,
}

/// A `Token` with its text as a sequence of characters.
pub struct TokenModel {
    pub symbol: Seq<char>,
    pub color: ColorClass,
}

impl DeepView for Token {
    type V = TokenModel;

    open spec fn deep_view(&self) -> TokenModel {
        TokenModel { symbol: self.symbol@, color: self.color }
    }
}

/// The number of digits that a count of changed records is written with at least.
pub const COUNT_WIDTH: usize = 4;

/// The token of a compliance tier.
pub open spec fn compliance_token(tier: ComplianceTier) -> TokenModel {
    match tier {
        ComplianceTier::NotApplicable => TokenModel { symbol: ""@, color: ColorClass::Neutral },
        ComplianceTier::Compliant => TokenModel { symbol: "R"@, color: ColorClass::Positive },
        ComplianceTier::NonCompliant(NonCompliance::ProfileMismatched) => TokenModel {
            symbol: "R-"@,
            color: ColorClass::Negative,
        },
        ComplianceTier::NonCompliant(NonCompliance::ProfileMissing) => TokenModel {
            symbol: "R!"@,
            color: ColorClass::Warning,
        },
    }
}

/// The colour class of an edition tier.
pub open spec fn edition_color(tier: EditionTier) -> ColorClass {
    match tier {
        EditionTier::Current => ColorClass::Positive,
        EditionTier::Outdated => ColorClass::Negative,
        EditionTier::Unspecified => ColorClass::Negative,
    }
}

/// The token of a project's edition: the edition itself, or four dashes where
/// none is given, in the colour class of its tier.
pub open spec fn edition_token(edition: Option<Seq<char>>, current: Seq<char>) -> TokenModel {
    TokenModel {
        symbol: match edition {
            Some(given) => given,
            None => "----"@,
        },
        color: edition_color(edition_of(edition, current)),
    }
}

/// The token of a divergence tier. A count is written in decimal with at
/// least four digits.
pub open spec fn divergence_token(tier: DivergenceTier) -> TokenModel {
    match tier {
        DivergenceTier::QueryFailed => TokenModel { symbol: "FAIL"@, color: ColorClass::Negative },
        DivergenceTier::Clean => TokenModel { symbol: "    "@, color: ColorClass::Positive },
        DivergenceTier::Diverged(n) => TokenModel {
            symbol: padded_left(decimal(n as nat), '0', COUNT_WIDTH as nat),
            color: ColorClass::Warning,
        },
    }
}

/// Renders a compliance tier.
pub fn render_compliance(tier: ComplianceTier) -> (token: Token)
    ensures
        token.deep_view() == compliance_token(tier),
{
    match tier {
        ComplianceTier::NotApplicable => Token {
            symbol: "".to_owned(),
            color: ColorClass::Neutral,
        },
        ComplianceTier::Compliant => Token { symbol: "R".to_owned(), color: ColorClass::Positive },
        ComplianceTier::NonCompliant(NonCompliance::ProfileMismatched) => Token {
            symbol: "R-".to_owned(),
            color: ColorClass::Negative,
        },
        ComplianceTier::NonCompliant(NonCompliance::ProfileMissing) => Token {
            symbol: "R!".to_owned(),
            color: ColorClass::Warning,
        },
    }
}

/// Renders a project's edition, where `current` is the current edition.
pub fn render_edition(edition: &Option<String>, current: &str) -> (token: Token)
    ensures
        token.deep_view() == edition_token(edition.deep_view(), current@),
{
    match edition {
        None => Token { symbol: "----".to_owned(), color: ColorClass::Negative },
        Some(given) => {
            let color = if same_text(given.as_str(), current) {
                ColorClass::Positive
            } else {
                ColorClass::Negative
            };
            Token { symbol: given.clone(), color }
        },
    }
}

/// Renders a divergence tier.
pub fn render_divergence(tier: DivergenceTier) -> (token: Token)
    ensures
        token.deep_view() == divergence_token(tier),
{
    match tier {
        DivergenceTier::QueryFailed => Token {
            symbol: "FAIL".to_owned(),
            color: ColorClass::Negative,
        },
        DivergenceTier::Clean => Token { symbol: "    ".to_owned(), color: ColorClass::Positive },
        DivergenceTier::Diverged(n) => Token {
            symbol: zero_padded(n, COUNT_WIDTH),
            color: ColorClass::Warning,
        },
    }
}

/// Where in the output a token is shown.
#[derive(Clone, Copy, Debug, PartialEq, Eq, Structural)]
pub enum Place {
    /// The number of a project's row.
    Index,
    /// The edition of a project.
    Edition,
    /// The release hygiene of a project.
    Release,
    /// The name of a project.
    Name,
    /// The place of a project below its root.
    Path,
    /// The status of a repository, and the heading above the repositories of a root.
    Status,
}

/// A colour of the terminal.
#[derive(Clone, Copy, Debug, PartialEq, Eq, Structural)]
pub enum Paint {
    BrightBlack,
    Red,
    Green,
    Yellow,
    White,
    BrightRed,
    BrightGreen,
    BrightYellow,
    BrightWhite,
}

/// The colour in which a token of class `class` is shown at `place`.
pub open spec fn paint_of(place: Place, class: ColorClass) -> Paint {
    match place {
        Place::Index => match class {
            ColorClass::Positive => Paint::BrightBlack,
            _ => Paint::Red,
        },
        Place::Edition => match class {
            ColorClass::Positive => Paint::White,
            _ => Paint::Yellow,
        },
        Place::Release => match class {
            ColorClass::Positive => Paint::BrightGreen,
            ColorClass::Warning => Paint::BrightYellow,
            ColorClass::Negative => Paint::BrightRed,
            ColorClass::Neutral => Paint::White,
        },
        Place::Name => Paint::BrightWhite,
        Place::Path => Paint::White,
        Place::Status => match class {
            ColorClass::Positive => Paint::Green,
            ColorClass::Warning => Paint::Yellow,
            ColorClass::Negative => Paint::Red,
            ColorClass::Neutral => Paint::White,
        },
    }
}

/// Says in which colour a token of class `class` is shown at `place`.
pub fn paint(place: Place, class: ColorClass) -> (colour: Paint)
    ensures
        colour == paint_of(place, class),
{
    match place {
        Place::Index => match class {
            ColorClass::Positive => Paint::BrightBlack,
            _ => Paint::Red,
        },
        Place::Edition => match class {
            ColorClass::Positive => Paint::White,
            _ => Paint::Yellow,
        },
        Place::Release => match class {
            ColorClass::Positive => Paint::BrightGreen,
            ColorClass::Warning => Paint::BrightYellow,
            ColorClass::Negative => Paint::BrightRed,
            ColorClass::Neutral => Paint::White,
        },
        Place::Name => Paint::BrightWhite,
        Place::Path => Paint::White,
        Place::Status => match class {
            ColorClass::Positive => Paint::Green,
            ColorClass::Warning => Paint::Yellow,
            ColorClass::Negative => Paint::Red,
            ColorClass::Neutral => Paint::White,
        },
    }
}

} // verus!

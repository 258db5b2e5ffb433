//! The closed vocabularies of avatar styles and their classification.

use vstd::prelude::*;
use crate::text::str_eq;

verus! {

/// Placeholder behaviours of the direct image provider.
#[derive(Clone, Copy, Debug, PartialEq, Eq, Structural)]
pub enum GravatarStyle {
    NotFound,
    Mp,
    Identicon,
    Monsterid,
    Wavatar,
    Retro,
    Robohash,
    Blank,
}

impl GravatarStyle {
    /// The token that names this style on the wire.
    pub open spec fn token(self) -> Seq<char> {
        match self {
            GravatarStyle::NotFound => "404"@,
            GravatarStyle::Mp => "mp"@,
            GravatarStyle::Identicon => "identicon"@,
            GravatarStyle::Monsterid => "monsterid"@,
            GravatarStyle::Wavatar => "wavatar"@,
            GravatarStyle::Retro => "retro"@,
            GravatarStyle::Robohash => "robohash"@,
            GravatarStyle::Blank => "blank"@,
        }
    }

    /// The style that a token names, if any: exact, case-sensitive match.
    pub open spec fn parse(token: Seq<char>) -> Option<GravatarStyle> {
        if token == "404"@ {
            Some(GravatarStyle::NotFound)
        } else if token == "mp"@ {
            Some(GravatarStyle::Mp)
        } else if token == "identicon"@ {
            Some(GravatarStyle::Identicon)
        } else if token == "monsterid"@ {
            Some(GravatarStyle::Monsterid)
        } else if token == "wavatar"@ {
            Some(GravatarStyle::Wavatar)
        } else if token == "retro"@ {
            Some(GravatarStyle::Retro)
        } else if token == "robohash"@ {
            Some(GravatarStyle::Robohash)
        } else if token == "blank"@ {
            Some(GravatarStyle::Blank)
        } else {
            None
        }
    }

    pub fn from_str(s: &str) -> (r: Option<GravatarStyle>)
        ensures
            r == GravatarStyle::parse(s@),
    {
        if str_eq(s, "404") {
            Some(GravatarStyle::NotFound)
        } else if str_eq(s, "mp") {
            Some(GravatarStyle::Mp)
        } else if str_eq(s, "identicon") {
            Some(GravatarStyle::Identicon)
        } else if str_eq(s, "monsterid") {
            Some(GravatarStyle::Monsterid)
        } else if str_eq(s, "wavatar") {
            Some(GravatarStyle::Wavatar)
        } else if str_eq(s, "retro") {
            Some(GravatarStyle::Retro)
        } else if str_eq(s, "robohash") {
            Some(GravatarStyle::Robohash)
        } else if str_eq(s, "blank") {
            Some(GravatarStyle::Blank)
        } else {
            None
        }
    }

    pub fn as_str(self) -> (s: &'static str)
        ensures
            s@ == self.token(),
    {
        match self {
            GravatarStyle::NotFound => "404",
            GravatarStyle::Mp => "mp",
            GravatarStyle::Identicon => "identicon",
            GravatarStyle::Monsterid => "monsterid",
            GravatarStyle::Wavatar => "wavatar",
            GravatarStyle::Retro => "retro",
            GravatarStyle::Robohash => "robohash",
            GravatarStyle::Blank => "blank",
        }
    }
}

/// Generative pattern algorithms of the generated-pattern provider.
#[derive(Clone, Copy, Debug, PartialEq, Eq, Structural)]
pub enum BoringVariant {
    Marble,
    Beam,
    Pixel,
    Sunset,
    Ring,
    Bauhaus,
}

impl BoringVariant {
    /// The token that names this variant on the wire.
    pub open spec fn token(self) -> Seq<char> {
        match self {
            BoringVariant::Marble => "marble"@,
            BoringVariant::Beam => "beam"@,
            BoringVariant::Pixel => "pixel"@,
            BoringVariant::Sunset => "sunset"@,
            BoringVariant::Ring => "ring"@,
            BoringVariant::Bauhaus => "bauhaus"@,
        }
    }

    /// The variant that a token names, if any: exact, case-sensitive match.
    pub open spec fn parse(token: Seq<char>) -> Option<BoringVariant> {
        if token == "marble"@ {
            Some(BoringVariant::Marble)
        } else if token == "beam"@ {
            Some(BoringVariant::Beam)
        } else if token == "pixel"@ {
            Some(BoringVariant::Pixel)
        } else if token == "sunset"@ {
            Some(BoringVariant::Sunset)
        } else if token == "ring"@ {
            Some(BoringVariant::Ring)
        } else if token == "bauhaus"@ {
            Some(BoringVariant::Bauhaus)
        } else {
            None
        }
    }

    pub fn from_str(s: &str) -> (r: Option<BoringVariant>)
        ensures
            r == BoringVariant::parse(s@),
    {
        if str_eq(s, "marble") {
            Some(BoringVariant::Marble)
        } else if str_eq(s, "beam") {
            Some(BoringVariant::Beam)
        } else if str_eq(s, "pixel") {
            Some(BoringVariant::Pixel)
        } else if str_eq(s, "sunset") {
            Some(BoringVariant::Sunset)
        } else if str_eq(s, "ring") {
            Some(BoringVariant::Ring)
        } else if str_eq(s, "bauhaus") {
            Some(BoringVariant::Bauhaus)
        } else {
            None
        }
    }

    pub fn as_str(self) -> (s: &'static str)
        ensures
            s@ == self.token(),
    {
        match self {
            BoringVariant::Marble => "marble",
            BoringVariant::Beam => "beam",
            BoringVariant::Pixel => "pixel",
            BoringVariant::Sunset => "sunset",
            BoringVariant::Ring => "ring",
            BoringVariant::Bauhaus => "bauhaus",
        }
    }
}

/// A classified style: exactly one of the two families.
#[derive(Clone, Copy, Debug, PartialEq, Eq, Structural)]
pub enum Style {
    Gravatar(GravatarStyle),
    Boring(BoringVariant),
}

impl Style {
    /// The token that names this style on the wire.
    pub open spec fn token(self) -> Seq<char> {
        match self {
            Style::Gravatar(g) => g.token(),
            Style::Boring(b) => b.token(),
        }
    }

    /// The direct vocabulary is tried first, then the generated one.
    pub open spec fn parse(token: Seq<char>) -> Option<Style> {
        match GravatarStyle::parse(token) {
            Some(g) => Some(Style::Gravatar(g)),
            None => match BoringVariant::parse(token) {
                Some(b) => Some(Style::Boring(b)),
                None => None,
            },
        }
    }

    pub fn from_str(s: &str) -> (r: Option<Style>)
        ensures
            r == Style::parse(s@),
    {
        match GravatarStyle::from_str(s) {
            Some(g) => Some(Style::Gravatar(g)),
            None => match BoringVariant::from_str(s) {
                Some(b) => Some(Style::Boring(b)),
                None => None,
            },
        }
    }

    pub fn as_str(self) -> (s: &'static str)
        ensures
            s@ == self.token(),
    {
        match self {
            Style::Gravatar(g) => g.as_str(),
            Style::Boring(b) => b.as_str(),
        }
    }
}

/// Why a style token was rejected.
#[derive(Debug, PartialEq, Eq)]
pub enum ClassificationError {
    /// The token is in neither vocabulary; it is carried unchanged.
    UnknownStyle(String),
}

impl ClassificationError {
    /// The rejected token.
    pub open spec fn token(self) -> Seq<char> {
        match self {
            ClassificationError::UnknownStyle(t) => t@,
        }
    }
}

/// What classification of `token` must return: the style it names, or the
/// token itself as unknown.
pub open spec fn classifies(token: Seq<char>, r: Result<Style, ClassificationError>) -> bool {
    match r {
        Ok(style) => Style::parse(token) == Some(style),
        Err(e) => Style::parse(token).is_none() && e.token() == token,
    }
}

/// Classifies a style token, or rejects it with the token itself.
pub fn classify(token: &str) -> (r: Result<Style, ClassificationError>)
    ensures
        classifies(token@, r),
{
    match Style::from_str(token) {
        Some(style) => Ok(style),
        None => Err(ClassificationError::UnknownStyle(token.to_owned())),
    }
}

/// Lengths and leading characters of the vocabulary's literals.
proof fn vocabulary_facts()
    ensures
        "404"@.len() == 3 && "404"@[0] == '4',
        "mp"@.len() == 2,
        "identicon"@.len() == 9 && "identicon"@[0] == 'i',
        "monsterid"@.len() == 9 && "monsterid"@[0] == 'm',
        "wavatar"@.len() == 7 && "wavatar"@[0] == 'w',
        "retro"@.len() == 5 && "retro"@[0] == 'r',
        "robohash"@.len() == 8,
        "blank"@.len() == 5 && "blank"@[0] == 'b',
        "marble"@.len() == 6 && "marble"@[0] == 'm',
        "beam"@.len() == 4 && "beam"@[0] == 'b',
        "pixel"@.len() == 5 && "pixel"@[0] == 'p',
        "sunset"@.len() == 6 && "sunset"@[0] == 's',
        "ring"@.len() == 4 && "ring"@[0] == 'r',
        "bauhaus"@.len() == 7 && "bauhaus"@[0] == 'b',
{
    reveal_strlit("404");
    reveal_strlit("mp");
    reveal_strlit("identicon");
    reveal_strlit("monsterid");
    reveal_strlit("wavatar");
    reveal_strlit("retro");
    reveal_strlit("robohash");
    reveal_strlit("blank");
    reveal_strlit("marble");
    reveal_strlit("beam");
    reveal_strlit("pixel");
    reveal_strlit("sunset");
    reveal_strlit("ring");
    reveal_strlit("bauhaus");
}

/// Every token of the direct vocabulary classifies to its own direct style.
pub proof fn lemma_direct_token_classified(g: GravatarStyle)
    ensures
        GravatarStyle::parse(g.token()) == Some(g),
        Style::parse(g.token()) == Some(Style::Gravatar(g)),
{
    vocabulary_facts();
}

/// Every token of the generated vocabulary is outside the direct vocabulary
/// and classifies to its own generated variant.
pub proof fn lemma_generated_token_classified(b: BoringVariant)
    ensures
        GravatarStyle::parse(b.token()).is_none(),
        BoringVariant::parse(b.token()) == Some(b),
        Style::parse(b.token()) == Some(Style::Boring(b)),
{
    vocabulary_facts();
}

/// A token classifies to a style exactly when it is that style's token, so
/// no two styles share a token.
pub proof fn lemma_classified_iff_named(token: Seq<char>, style: Style)
    ensures
        Style::parse(token) == Some(style) <==> token == style.token(),
{
    match style {
        Style::Gravatar(g) => lemma_direct_token_classified(g),
        Style::Boring(b) => lemma_generated_token_classified(b),
    }
}

/// A token is rejected exactly when no style of either vocabulary has it.
pub proof fn lemma_unknown_iff_unnamed(token: Seq<char>)
    ensures
        Style::parse(token).is_none() <==> (forall|style: Style| token != #[trigger] style.token()),
{
    if Style::parse(token).is_none() {
        assert forall|style: Style| token != #[trigger] style.token() by {
            lemma_classified_iff_named(token, style);
        }
    } else {
        let style = Style::parse(token).unwrap();
        lemma_classified_iff_named(token, style);
    }
}

/// Classification is a function of the token's text: two classifications of
/// the same text agree on the style, or both reject it with that text.
pub proof fn lemma_classification_deterministic(
    token: Seq<char>,
    first: Result<Style, ClassificationError>,
    second: Result<Style, ClassificationError>,
)
    requires
        classifies(token, first),
        classifies(token, second),
    ensures
        match (first, second) {
            (Ok(a), Ok(b)) => a == b,
            (Err(a), Err(b)) => a.token() == b.token(),
            _ => false,
        },
{
}

} // verus!

//! Colours, and the one place where text is given its escape sequences.

use ansi_term::{ANSIString, ANSIStrings, Colour, Style};
use vstd::prelude::*;
use vstd::string::*;

verus! {

/// A terminal colour: true colour, or one of the 256 indexed colours.
#[derive(Clone, Copy, Debug, PartialEq, Eq, Structural)]
pub enum PaletteColor {
    Rgb(u8, u8, u8),
    EightBit(u8),
}

/// How heavily a piece of text is drawn.
#[derive(Clone, Copy, Debug, PartialEq, Eq, Structural)]
pub enum Emphasis {
    Plain,
    Bold,
    Italic,
}

/// The colours of one kind of element.
#[derive(Clone, Copy, Debug)]
pub struct StyleDeclaration {
    pub base: PaletteColor,
    pub background: PaletteColor,
    pub emphasis_0: PaletteColor,
    pub emphasis_1: PaletteColor,
    pub emphasis_2: PaletteColor,
    pub emphasis_3: PaletteColor,
}

/// The part of the theme that the line is drawn with.
#[derive(Clone, Copy, Debug)]
pub struct Styling {
    pub text_unselected: StyleDeclaration,
    pub text_selected: StyleDeclaration,
    pub ribbon_unselected: StyleDeclaration,
    pub ribbon_selected: StyleDeclaration,
}

/// The named colours that the load widget picks from.
#[derive(Clone, Copy, Debug)]
pub struct Palette {
    pub green: PaletteColor,
    pub white: PaletteColor,
    pub blue: PaletteColor,
    pub cyan: PaletteColor,
    pub yellow: PaletteColor,
    pub magenta: PaletteColor,
    pub red: PaletteColor,
}

/// Whether the terminal's font has the glyphs that draw slanted edges.
#[derive(Clone, Copy, Debug)]
pub struct PluginCapabilities {
    pub arrow_fonts: bool,
}

/// `text` wrapped in the escape sequences that draw it in `fg` on `bg` with
/// the given emphasis, as `ansi_term` writes them.
pub uninterp spec fn painted(
    text: Seq<char>,
    fg: PaletteColor,
    bg: PaletteColor,
    emphasis: Emphasis,
) -> Seq<char>;

/// A text and the way it is drawn.
#[derive(Debug)]
pub struct Piece {
    pub text: String,
    pub fg: PaletteColor,
    pub bg: PaletteColor,
    pub emphasis: Emphasis,
}

/// What a `Piece` is to the contracts.
pub struct PieceView {
    pub text: Seq<char>,
    pub fg: PaletteColor,
    pub bg: PaletteColor,
    pub emphasis: Emphasis,
}

impl View for Piece {
    type V = PieceView;

    open spec fn view(&self) -> PieceView {
        PieceView { text: self.text@, fg: self.fg, bg: self.bg, emphasis: self.emphasis }
    }
}

/// The views of a row of pieces, in order.
pub open spec fn piece_views(pieces: Seq<Piece>) -> Seq<PieceView> {
    pieces.map_values(|piece: Piece| piece@)
}

/// The texts of `pieces` one after the other, each drawn in its own way, as
/// `ansi_term` writes them in one go: with only the escape sequences that
/// change from one piece to the next.
pub uninterp spec fn painted_row(pieces: Seq<PieceView>) -> Seq<char>;

/// The pieces of a ribbon: `separator` in `edge` on `fill`, then `text` in
/// bold `ink` on `fill`, then `separator` in `fill` on `edge`.
pub open spec fn ribbon(
    separator: Seq<char>,
    text: Seq<char>,
    ink: PaletteColor,
    edge: PaletteColor,
    fill: PaletteColor,
) -> Seq<PieceView> {
    seq![
        PieceView { text: separator, fg: edge, bg: fill, emphasis: Emphasis::Plain },
        PieceView { text: text, fg: ink, bg: fill, emphasis: Emphasis::Bold },
        PieceView { text: separator, fg: fill, bg: edge, emphasis: Emphasis::Plain },
    ]
}

/// A ribbon, painted in one go.
pub open spec fn painted_ribbon(
    separator: Seq<char>,
    text: Seq<char>,
    ink: PaletteColor,
    edge: PaletteColor,
    fill: PaletteColor,
) -> Seq<char> {
    painted_row(ribbon(separator, text, ink, edge, fill))
}

/// Calls `ansi_term::Style::paint` on a style made with `Style::new`, `fg`,
/// `on` and, by `emphasis`, `bold` or `italic`, and writes the result out.
///
/// Trusted: the text that comes back is what `painted` names for these
/// arguments. Nothing is claimed of the escape sequences themselves.
#[verifier::external_body]
pub(crate) fn paint(text: &str, fg: PaletteColor, bg: PaletteColor, emphasis: Emphasis) -> (styled:
    String)
    ensures
        styled@ == painted(text@, fg, bg, emphasis),
{
    let [f, b] = [fg, bg].map(|c| match c {
        PaletteColor::Rgb(r, g, b) => Colour::RGB(r, g, b),
        PaletteColor::EightBit(n) => Colour::Fixed(n),
    });
    let style = match emphasis {
        Emphasis::Plain => Style::new().fg(f).on(b),
        Emphasis::Bold => Style::new().fg(f).on(b).bold(),
        Emphasis::Italic => Style::new().fg(f).on(b).italic(),
    };
    style.paint(text).to_string()
}

/// Calls `ansi_term::Style::paint` for every piece, on a style made as in
/// `paint`, then `ansi_term::ANSIStrings` on the results, and writes that
/// out.
///
/// Trusted: the text that comes back is what `painted_row` names for these
/// pieces.
#[verifier::external_body]
pub(crate) fn paint_row(pieces: &Vec<Piece>) -> (styled: String)
    ensures
        styled@ == painted_row(piece_views(pieces@)),
{
    let strings: Vec<ANSIString> = pieces.iter().map(|p| {
        let [f, b] = [p.fg, p.bg].map(|c| match c {
            PaletteColor::Rgb(r, g, b) => Colour::RGB(r, g, b),
            PaletteColor::EightBit(n) => Colour::Fixed(n),
        });
        let style = Style::new().fg(f).on(b);
        match p.emphasis {
            Emphasis::Plain => style,
            Emphasis::Bold => style.bold(),
            Emphasis::Italic => style.italic(),
        }.paint(p.text.as_str())
    }).collect();
    ANSIStrings(&strings).to_string()
}

/// Paints a ribbon: `text` in bold `ink` on `fill`, between two separators
/// that lead from `edge` into `fill` and back.
pub fn paint_ribbon(
    separator: &str,
    text: &str,
    ink: PaletteColor,
    edge: PaletteColor,
    fill: PaletteColor,
) -> (styled: String)
    ensures
        styled@ == painted_ribbon(separator@, text@, ink, edge, fill),
{
    let mut pieces: Vec<Piece> = Vec::new();
    pieces.push(
        Piece { text: String::from_str(separator), fg: edge, bg: fill, emphasis: Emphasis::Plain },
    );
    pieces.push(Piece { text: String::from_str(text), fg: ink, bg: fill, emphasis: Emphasis::Bold });
    pieces.push(
        Piece { text: String::from_str(separator), fg: fill, bg: edge, emphasis: Emphasis::Plain },
    );
    proof {
        assert(piece_views(pieces@) =~= ribbon(separator@, text@, ink, edge, fill));
    }
    paint_row(&pieces)
}

} // verus!

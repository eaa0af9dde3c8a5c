//! Deterministic asset path resolution.
//!
//! Given a creature identifier, a form number, a shiny flag and (for
//! battle sprites) a battle-side flag, these types compute the relative
//! path of the sprite or cry asset. Resolution is a total function:
//! every request yields a syntactically valid relative path; whether a
//! file exists there is the loading collaborator's concern.

use vstd::prelude::*;
use vstd::string::StringExecFns;
use crate::digits::{dec_chars, dec_chars_min3, push_decimal, push_decimal_min3};

verus! {

/// National pokedex number of a creature.
pub type PokedexNumber = u16;

/// Alternate-form number of a creature; zero is the base form.
pub type Form = u8;

/// Whether the palette-swapped ("shiny") variant of an asset is wanted.
pub enum Shinyness {
    Shiny,
    Normal,
}

/// Filename infix selecting the shiny variant: "s" for shiny, empty
/// otherwise.
pub open spec fn shiny_marker_spec(s: Shinyness) -> Seq<char> {
    match s {
        Shinyness::Shiny => seq!['s'],
        Shinyness::Normal => Seq::empty(),
    }
}

impl Shinyness {
    /// The filename infix for this variant.
    pub fn get_shiny_marker(&self) -> (r: &'static str)
        ensures
            r@ == shiny_marker_spec(*self),
    {
        proof {
            reveal_strlit("s");
            reveal_strlit("");
        }
        let r = match self {
            Shinyness::Shiny => "s",
            Shinyness::Normal => "",
        };
        assert(r@ =~= shiny_marker_spec(*self));
        r
    }
}

/// Which side of a battle a sprite is rendered for.
pub enum BattleSide {
    Front,
    Back,
}

/// Filename infix selecting the battle side: "b" for the back pose,
/// empty for the front (unmarked default).
pub open spec fn side_marker_spec(s: BattleSide) -> Seq<char> {
    match s {
        BattleSide::Back => seq!['b'],
        BattleSide::Front => Seq::empty(),
    }
}

impl BattleSide {
    /// The filename infix for this side.
    pub fn get_side_marker(&self) -> (r: &'static str)
        ensures
            r@ == side_marker_spec(*self),
    {
        proof {
            reveal_strlit("b");
            reveal_strlit("");
        }
        let r = match self {
            BattleSide::Back => "b",
            BattleSide::Front => "",
        };
        assert(r@ =~= side_marker_spec(*self));
        r
    }
}

/// Filename suffix selecting an alternate form: empty for the base
/// form, "_{form}" otherwise.
pub open spec fn form_suffix_spec(form: nat) -> Seq<char> {
    if form == 0 {
        Seq::empty()
    } else {
        seq!['_'] + dec_chars(form)
    }
}

/// A single asset lookup request.
pub enum Asset {
    OverworldSprite(PokedexNumber, Form, Shinyness),
    BattleSprite(PokedexNumber, Form, Shinyness, BattleSide),
    BattleCry(PokedexNumber),
}

/// Directory prefix of an asset's path, chosen by its category.
pub open spec fn prefix_spec(a: Asset) -> Seq<char> {
    match a {
        Asset::OverworldSprite(..) => "graphics/overworld_sprites"@,
        Asset::BattleSprite(..) => "graphics/battle_sprites"@,
        Asset::BattleCry(..) => "audio/cries"@,
    }
}

/// Full relative path of an asset: the category prefix, a separator,
/// then the filename built from the zero-padded creature number and the
/// marker infixes (shiny, then side, then form), with the category's
/// file extension.
pub open spec fn path_spec(a: Asset) -> Seq<char> {
    match a {
        Asset::OverworldSprite(n, form, shiny) => prefix_spec(a) + seq!['/'] + dec_chars_min3(
            n as nat,
        ) + shiny_marker_spec(shiny) + form_suffix_spec(form as nat) + ".png"@,
        Asset::BattleSprite(n, form, shiny, side) => prefix_spec(a) + seq!['/'] + dec_chars_min3(
            n as nat,
        ) + shiny_marker_spec(shiny) + side_marker_spec(side) + form_suffix_spec(form as nat)
            + ".png"@,
        Asset::BattleCry(n) => prefix_spec(a) + seq!['/'] + dec_chars_min3(n as nat) + "Cry.wav"@,
    }
}

impl Asset {
    /// Directory prefix for this asset's category.
    pub fn get_prefix(&self) -> (r: String)
        ensures
            r@ == prefix_spec(*self),
    {
        match self {
            Asset::OverworldSprite(..) => String::from_str("graphics/overworld_sprites"),
            Asset::BattleSprite(..) => String::from_str("graphics/battle_sprites"),
            Asset::BattleCry(..) => String::from_str("audio/cries"),
        }
    }

    /// Full relative path for this asset.
    pub fn get_path(&self) -> (r: String)
        ensures
            r@ == path_spec(*self),
    {
        proof {
            reveal_strlit("/");
            reveal_strlit("_");
        }
        let mut s = self.get_prefix();
        s.append("/");
        match self {
            Asset::OverworldSprite(n, form, shiny) => {
                push_decimal_min3(&mut s, *n);
                s.append(shiny.get_shiny_marker());
                if *form > 0 {
                    s.append("_");
                    push_decimal(&mut s, *form as u16);
                }
                s.append(".png");
            },
            Asset::BattleSprite(n, form, shiny, side) => {
                push_decimal_min3(&mut s, *n);
                s.append(shiny.get_shiny_marker());
                s.append(side.get_side_marker());
                if *form > 0 {
                    s.append("_");
                    push_decimal(&mut s, *form as u16);
                }
                s.append(".png");
            },
            Asset::BattleCry(n) => {
                push_decimal_min3(&mut s, *n);
                s.append("Cry.wav");
            },
        }
        assert(s@ =~= path_spec(*self));
        s
    }
}

} // verus!

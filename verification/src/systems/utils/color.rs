//! Colours as three bytes.

use vstd::prelude::*;

verus! {

/// A colour of one byte for each of red, green and blue.
#[derive(Debug, Clone, Copy, PartialEq, Eq, Structural)]
pub struct Rgb8 {
    pub r: u8,
    pub g: u8,
    pub b: u8,
}

/// The CSS colour alice blue.
pub const ALICE_BLUE: u32 = 0xF0F8FF;

/// The CSS colour antique white.
pub const ANTIQUE_WHITE: u32 = 0xFAEBD7;

/// The CSS colour aqua.
pub const AQUA: u32 = 0x00FFFF;

/// The CSS colour aquamarine.
pub const AQUAMARINE: u32 = 0x7FFFD4;

/// The CSS colour azure.
pub const AZURE: u32 = 0xF0FFFF;

/// The CSS colour beige.
pub const BEIGE: u32 = 0xF5F5DC;

/// The CSS colour bisque.
pub const BISQUE: u32 = 0xFFE4C4;

/// The CSS colour black.
pub const BLACK: u32 = 0x000000;

/// The CSS colour blanched almond.
pub const BLANCHED_ALMOND: u32 = 0xFFEBCD;

/// The CSS colour blue.
pub const BLUE: u32 = 0x0000FF;

/// The CSS colour blue violet.
pub const BLUE_VIOLET: u32 = 0x8A2BE2;

/// The CSS colour brown.
pub const BROWN: u32 = 0xA52A2A;

/// The CSS colour burly wood.
pub const BURLY_WOOD: u32 = 0xDEB887;

/// The CSS colour cadet blue.
pub const CADET_BLUE: u32 = 0x5F9EA0;

/// The CSS colour chartreuse.
pub const CHARTREUSE: u32 = 0x7FFF00;

/// The CSS colour chocolate.
pub const CHOCOLATE: u32 = 0xD2691E;

/// The CSS colour coral.
pub const CORAL: u32 = 0xFF7F50;

/// The CSS colour cornflower blue.
pub const CORNFLOWER_BLUE: u32 = 0x6495ED;

/// The CSS colour cornsilk.
pub const CORNSILK: u32 = 0xFFF8DC;

/// The CSS colour crimson.
pub const CRIMSON: u32 = 0xDC143C;

/// The CSS colour cyan.
pub const CYAN: u32 = 0x00FFFF;

/// The CSS colour dark blue.
pub const DARK_BLUE: u32 = 0x00008B;

/// The CSS colour dark cyan.
pub const DARK_CYAN: u32 = 0x008B8B;

/// The CSS colour dark golden rod.
pub const DARK_GOLDEN_ROD: u32 = 0xB8860B;

/// The CSS colour dark gray.
pub const DARK_GRAY: u32 = 0xA9A9A9;

/// The CSS colour dark green.
pub const DARK_GREEN: u32 = 0x006400;

/// The CSS colour dark khaki.
pub const DARK_KHAKI: u32 = 0xBDB76B;

/// The CSS colour dark magenta.
pub const DARK_MAGENTA: u32 = 0x8B008B;

/// The CSS colour dark olive green.
pub const DARK_OLIVE_GREEN: u32 = 0x556B2F;

/// The CSS colour dark orange.
pub const DARK_ORANGE: u32 = 0xFF8C00;

/// The CSS colour dark orchid.
pub const DARK_ORCHID: u32 = 0x9932CC;

/// The CSS colour dark red.
pub const DARK_RED: u32 = 0x8B0000;

/// The CSS colour dark salmon.
pub const DARK_SALMON: u32 = 0xE9967A;

/// The CSS colour dark sea green.
pub const DARK_SEA_GREEN: u32 = 0x8FBC8F;

/// The CSS colour dark slate blue.
pub const DARK_SLATE_BLUE: u32 = 0x483D8B;

/// The CSS colour dark slate gray.
pub const DARK_SLATE_GRAY: u32 = 0x2F4F4F;

/// The CSS colour dark turquoise.
pub const DARK_TURQUOISE: u32 = 0x00CED1;

/// The CSS colour dark violet.
pub const DARK_VIOLET: u32 = 0x9400D3;

/// The CSS colour deep pink.
pub const DEEP_PINK: u32 = 0xFF1493;

/// The CSS colour deep sky blue.
pub const DEEP_SKY_BLUE: u32 = 0x00BFFF;

/// The CSS colour dim gray.
pub const DIM_GRAY: u32 = 0x696969;

/// The CSS colour dodger blue.
pub const DODGER_BLUE: u32 = 0x1E90FF;

/// The CSS colour fire brick.
pub const FIRE_BRICK: u32 = 0xB22222;

/// The CSS colour floral white.
pub const FLORAL_WHITE: u32 = 0xFFFAF0;

/// The CSS colour forest green.
pub const FOREST_GREEN: u32 = 0x228B22;

/// The CSS colour fuchsia.
pub const FUCHSIA: u32 = 0xFF00FF;

/// The CSS colour gainsboro.
pub const GAINSBORO: u32 = 0xDCDCDC;

/// The CSS colour ghost white.
pub const GHOST_WHITE: u32 = 0xF8F8FF;

/// The CSS colour gold.
pub const GOLD: u32 = 0xFFD700;

/// The CSS colour golden rod.
pub const GOLDEN_ROD: u32 = 0xDAA520;

/// The CSS colour gray.
pub const GRAY: u32 = 0x808080;

/// The CSS colour green.
pub const GREEN: u32 = 0x008000;

/// The CSS colour green yellow.
pub const GREEN_YELLOW: u32 = 0xADFF2F;

/// The CSS colour honey dew.
pub const HONEY_DEW: u32 = 0xF0FFF0;

/// The CSS colour hot pink.
pub const HOT_PINK: u32 = 0xFF69B4;

/// The CSS colour indian red.
pub const INDIAN_RED: u32 = 0xCD5C5C;

/// The CSS colour indigo.
pub const INDIGO: u32 = 0x4B0082;

/// The CSS colour ivory.
pub const IVORY: u32 = 0xFFFFF0;

/// The CSS colour khaki.
pub const KHAKI: u32 = 0xF0E68C;

/// The CSS colour lavender.
pub const LAVENDER: u32 = 0xE6E6FA;

/// The CSS colour lavender blush.
pub const LAVENDER_BLUSH: u32 = 0xFFF0F5;

/// The CSS colour lawn green.
pub const LAWN_GREEN: u32 = 0x7CFC00;

/// The CSS colour lemon chiffon.
pub const LEMON_CHIFFON: u32 = 0xFFFACD;

/// The CSS colour light blue.
pub const LIGHT_BLUE: u32 = 0xADD8E6;

/// The CSS colour light coral.
pub const LIGHT_CORAL: u32 = 0xF08080;

/// The CSS colour light cyan.
pub const LIGHT_CYAN: u32 = 0xE0FFFF;

/// The CSS colour light golden rod yellow.
pub const LIGHT_GOLDEN_ROD_YELLOW: u32 = 0xFAFAD2;

/// The CSS colour light gray.
pub const LIGHT_GRAY: u32 = 0xD3D3D3;

/// The CSS colour light green.
pub const LIGHT_GREEN: u32 = 0x90EE90;

/// The CSS colour light pink.
pub const LIGHT_PINK: u32 = 0xFFB6C1;

/// The CSS colour light salmon.
pub const LIGHT_SALMON: u32 = 0xFFA07A;

/// The CSS colour light sea green.
pub const LIGHT_SEA_GREEN: u32 = 0x20B2AA;

/// The CSS colour light sky blue.
pub const LIGHT_SKY_BLUE: u32 = 0x87CEFA;

/// The CSS colour light slate gray.
pub const LIGHT_SLATE_GRAY: u32 = 0x778899;

/// The CSS colour light steel blue.
pub const LIGHT_STEEL_BLUE: u32 = 0xB0C4DE;

/// The CSS colour light yellow.
pub const LIGHT_YELLOW: u32 = 0xFFFFE0;

/// The CSS colour lime.
pub const LIME: u32 = 0x00FF00;

/// The CSS colour lime green.
pub const LIME_GREEN: u32 = 0x32CD32;

/// The CSS colour linen.
pub const LINEN: u32 = 0xFAF0E6;

/// The CSS colour magenta.
pub const MAGENTA: u32 = 0xFF00FF;

/// The CSS colour maroon.
pub const MAROON: u32 = 0x800000;

/// The CSS colour medium aqua marine.
pub const MEDIUM_AQUA_MARINE: u32 = 0x66CDAA;

/// The CSS colour medium blue.
pub const MEDIUM_BLUE: u32 = 0x0000CD;

/// The CSS colour medium orchid.
pub const MEDIUM_ORCHID: u32 = 0xBA55D3;

/// The CSS colour medium purple.
pub const MEDIUM_PURPLE: u32 = 0x9370DB;

/// The CSS colour medium sea green.
pub const MEDIUM_SEA_GREEN: u32 = 0x3CB371;

/// The CSS colour medium slate blue.
pub const MEDIUM_SLATE_BLUE: u32 = 0x7B68EE;

/// The CSS colour medium spring green.
pub const MEDIUM_SPRING_GREEN: u32 = 0x00FA9A;

/// The CSS colour medium turquoise.
pub const MEDIUM_TURQUOISE: u32 = 0x48D1CC;

/// The CSS colour medium violet red.
pub const MEDIUM_VIOLET_RED: u32 = 0xC71585;

/// The CSS colour midnight blue.
pub const MIDNIGHT_BLUE: u32 = 0x191970;

/// The CSS colour mint cream.
pub const MINT_CREAM: u32 = 0xF5FFFA;

/// The CSS colour misty rose.
pub const MISTY_ROSE: u32 = 0xFFE4E1;

/// The CSS colour moccasin.
pub const MOCCASIN: u32 = 0xFFE4B5;

/// The CSS colour navajo white.
pub const NAVAJO_WHITE: u32 = 0xFFDEAD;

/// The CSS colour navy.
pub const NAVY: u32 = 0x000080;

/// The CSS colour old lace.
pub const OLD_LACE: u32 = 0xFDF5E6;

/// The CSS colour olive.
pub const OLIVE: u32 = 0x808000;

/// The CSS colour olive drab.
pub const OLIVE_DRAB: u32 = 0x6B8E23;

/// The CSS colour orange.
pub const ORANGE: u32 = 0xFFA500;

/// The CSS colour orange red.
pub const ORANGE_RED: u32 = 0xFF4500;

/// The CSS colour orchid.
pub const ORCHID: u32 = 0xDA70D6;

/// The CSS colour pale golden rod.
pub const PALE_GOLDEN_ROD: u32 = 0xEEE8AA;

/// The CSS colour pale green.
pub const PALE_GREEN: u32 = 0x98FB98;

/// The CSS colour pale turquoise.
pub const PALE_TURQUOISE: u32 = 0xAFEEEE;

/// The CSS colour pale violet red.
pub const PALE_VIOLET_RED: u32 = 0xDB7093;

/// The CSS colour papaya whip.
pub const PAPAYA_WHIP: u32 = 0xFFEFD5;

/// The CSS colour peach puff.
pub const PEACH_PUFF: u32 = 0xFFDAB9;

/// The CSS colour peru.
pub const PERU: u32 = 0xCD853F;

/// The CSS colour pink.
pub const PINK: u32 = 0xFFC0CB;

/// The CSS colour plum.
pub const PLUM: u32 = 0xDDA0DD;

/// The CSS colour powder blue.
pub const POWDER_BLUE: u32 = 0xB0E0E6;

/// The CSS colour purple.
pub const PURPLE: u32 = 0x800080;

/// The CSS colour rebecca purple.
pub const REBECCA_PURPLE: u32 = 0x663399;

/// The CSS colour red.
pub const RED: u32 = 0xFF0000;

/// The CSS colour rosy brown.
pub const ROSY_BROWN: u32 = 0xBC8F8F;

/// The CSS colour royal blue.
pub const ROYAL_BLUE: u32 = 0x4169E1;

/// The CSS colour saddle brown.
pub const SADDLE_BROWN: u32 = 0x8B4513;

/// The CSS colour salmon.
pub const SALMON: u32 = 0xFA8072;

/// The CSS colour sandy brown.
pub const SANDY_BROWN: u32 = 0xF4A460;

/// The CSS colour sea green.
pub const SEA_GREEN: u32 = 0x2E8B57;

/// The CSS colour sea shell.
pub const SEA_SHELL: u32 = 0xFFF5EE;

/// The CSS colour sienna.
pub const SIENNA: u32 = 0xA0522D;

/// The CSS colour silver.
pub const SILVER: u32 = 0xC0C0C0;

/// The CSS colour sky blue.
pub const SKY_BLUE: u32 = 0x87CEEB;

/// The CSS colour slate blue.
pub const SLATE_BLUE: u32 = 0x6A5ACD;

/// The CSS colour slate gray.
pub const SLATE_GRAY: u32 = 0x708090;

/// The CSS colour snow.
pub const SNOW: u32 = 0xFFFAFA;

/// The CSS colour spring green.
pub const SPRING_GREEN: u32 = 0x00FF7F;

/// The CSS colour steel blue.
pub const STEEL_BLUE: u32 = 0x4682B4;

/// The CSS colour tan.
pub const TAN: u32 = 0xD2B48C;

/// The CSS colour teal.
pub const TEAL: u32 = 0x008080;

/// The CSS colour thistle.
pub const THISTLE: u32 = 0xD8BFD8;

/// The CSS colour tomato.
pub const TOMATO: u32 = 0xFF6347;

/// The CSS colour turquoise.
pub const TURQUOISE: u32 = 0x40E0D0;

/// The CSS colour violet.
pub const VIOLET: u32 = 0xEE82EE;

/// The CSS colour wheat.
pub const WHEAT: u32 = 0xF5DEB3;

/// The CSS colour white.
pub const WHITE: u32 = 0xFFFFFF;

/// The CSS colour white smoke.
pub const WHITE_SMOKE: u32 = 0xF5F5F5;

/// The CSS colour yellow.
pub const YELLOW: u32 = 0xFFFF00;

/// The CSS colour yellow green.
pub const YELLOW_GREEN: u32 = 0x9ACD32;

impl Rgb8 {
    /// The colour `0xRRGGBB`. Bits above the lowest 24 do not count.
    pub fn from_u32(color: u32) -> (rgb: Self)
        ensures
            rgb.r == (color / 0x1_0000) % 0x100,
            rgb.g == (color / 0x100) % 0x100,
            rgb.b == color % 0x100,
    {
        let r = (color >> 16) & 0xff;
        let g = (color >> 8) & 0xff;
        let b = color & 0xff;
        assert(r == (color / 0x1_0000) % 0x100 && r < 0x100) by (bit_vector)
            requires
                r == (color >> 16) & 0xff,
        ;
        assert(g == (color / 0x100) % 0x100 && g < 0x100) by (bit_vector)
            requires
                g == (color >> 8) & 0xff,
        ;
        assert(b == color % 0x100 && b < 0x100) by (bit_vector)
            requires
                b == color & 0xff,
        ;
        Rgb8 { r: r as u8, g: g as u8, b: b as u8 }
    }

    /// The number `0xRRGGBB`.
    pub fn to_u32(self) -> (color: u32)
        ensures
            color == self.r * 0x1_0000 + self.g * 0x100 + self.b,
    {
        (self.r as u32) * 0x1_0000 + (self.g as u32) * 0x100 + (self.b as u32)
    }
}

/// A colour of at most 24 bits comes back from its three bytes.
pub proof fn law_rgb_round_trip(color: u32, rgb: Rgb8)
    requires
        color < 0x100_0000,
        rgb.r == (color / 0x1_0000) % 0x100,
        rgb.g == (color / 0x100) % 0x100,
        rgb.b == color % 0x100,
    ensures
        rgb.r * 0x1_0000 + rgb.g * 0x100 + rgb.b == color,
{
}

} // verus!

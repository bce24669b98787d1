//! Sprites and emoji of a species: the links to its sprites, the name of its emoji, and
//! the part of a sprite that holds something.

use vstd::prelude::*;

use crate::game::{Gender, Pokemon, RegionalVariant};
use crate::text::{from_chars, lowercase, nat_digits, push_char, push_str, push_u64, to_chars, to_lowercase};

verus! {

pub const GEN5_ANIMATED: &'static str = "https://github.com/PokeAPI/sprites/blob/master/sprites/pokemon/versions/generation-v/black-white/animated/";
pub const GEN5_ANIMATED_FEMALE: &'static str = "https://github.com/PokeAPI/sprites/blob/master/sprites/pokemon/versions/generation-v/black-white/animated/female/";
pub const FRONT_MALE: &'static str = "https://github.com/PokeAPI/sprites/blob/master/sprites/pokemon/";
pub const FRONT_FEMALE: &'static str = "https://github.com/PokeAPI/sprites/blob/master/sprites/pokemon/female/";

/// The closing advice of the sprite links.
pub const SPRITE_ADVICE: &'static str = "\n\n**When adding the emoji to the server, make sure to cut out the whitespace around the sprite, and make it square sized so discord doesn't stretch it in some awkward way.**";

/// A sprite link in angle brackets, so that Discord shows no preview.
pub open spec fn sprite_link(label: Seq<char>, base: Seq<char>, id: u16, ext: Seq<char>) -> Seq<char> {
    label + seq!['<'] + base + nat_digits(id as nat) + ext + ">\n"@
}

/// The links to a species' sprites: the animated ones of generation five for species
/// up to that generation, the front sprites for all, female ones where they differ.
pub open spec fn sprite_links(p: Pokemon) -> Seq<char> {
    (if p.generation <= 5 {
        "## Animated Gen 5 sprite\n"@ + sprite_link("Male/Unisex: "@, GEN5_ANIMATED@, p.poke_api_id, ".gif"@) + if p.has_gender_differences {
            sprite_link("Female: "@, GEN5_ANIMATED_FEMALE@, p.poke_api_id, ".gif"@)
        } else {
            Seq::empty()
        }
    } else {
        Seq::empty()
    }) + "## Regular Front Sprite\n"@ + sprite_link("Male/Unisex: "@, FRONT_MALE@, p.poke_api_id, ".png"@) + (if p.has_gender_differences {
        sprite_link("Female: "@, FRONT_FEMALE@, p.poke_api_id, ".png"@)
    } else {
        Seq::empty()
    }) + SPRITE_ADVICE@
}

fn push_sprite_link(s: &mut String, label: &str, base: &str, id: u16, ext: &str)
    ensures
        final(s)@ == old(s)@ + sprite_link(label@, base@, id, ext@),
{
    push_str(s, label);
    push_char(s, '<');
    push_str(s, base);
    push_u64(s, id as u64);
    push_str(s, ext);
    push_str(s, ">\n");
}

/// The links to a species' sprites.
pub fn build_string(pokemon: &Pokemon) -> (s: String)
    ensures
        s@ == sprite_links(*pokemon),
{
    let mut result = String::new();
    if pokemon.generation <= 5 {
        push_str(&mut result, "## Animated Gen 5 sprite\n");
        push_sprite_link(&mut result, "Male/Unisex: ", GEN5_ANIMATED, pokemon.poke_api_id, ".gif");
        if pokemon.has_gender_differences {
            push_sprite_link(&mut result, "Female: ", GEN5_ANIMATED_FEMALE, pokemon.poke_api_id, ".gif");
        }
    }
    let ghost head = result@;
    push_str(&mut result, "## Regular Front Sprite\n");
    push_sprite_link(&mut result, "Male/Unisex: ", FRONT_MALE, pokemon.poke_api_id, ".png");
    if pokemon.has_gender_differences {
        push_sprite_link(&mut result, "Female: ", FRONT_FEMALE, pokemon.poke_api_id, ".png");
    }
    push_str(&mut result, SPRITE_ADVICE);
    assert(result@ =~= sprite_links(*pokemon));
    result
}

/// `s` with every occurrence of `pattern` replaced, left to right and without overlap,
/// as `str::replace` does for a non-empty pattern.
pub open spec fn replace_all(s: Seq<char>, pattern: Seq<char>, with: Seq<char>) -> Seq<char>
    decreases s.len(),
{
    if s.len() == 0 {
        Seq::empty()
    } else if pattern.len() > 0 && pattern.len() <= s.len() && s.subrange(0, pattern.len() as int) == pattern {
        with + replace_all(s.skip(pattern.len() as int), pattern, with)
    } else {
        seq![s[0]] + replace_all(s.skip(1), pattern, with)
    }
}

/// The characters with every occurrence of a non-empty pattern replaced.
pub fn replace_chars(s: &Vec<char>, pattern: &str, with: &str) -> (r: Vec<char>)
    requires
        pattern@.len() > 0,
    ensures
        r@ == replace_all(s@, pattern@, with@),
{
    let p = to_chars(pattern);
    let w = to_chars(with);
    let mut out: Vec<char> = Vec::new();
    let mut i: usize = 0;
    assert(s@.skip(0) =~= s@);
    while i < s.len()
        invariant
            p@ == pattern@,
            w@ == with@,
            p@.len() > 0,
            i <= s.len(),
            out@ + replace_all(s@.skip(i as int), p@, w@) == replace_all(s@, p@, w@),
        decreases s.len() - i,
    {
        let mut matched = p.len() <= s.len() - i;
        let mut k: usize = 0;
        while matched && k < p.len()
            invariant
                i < s.len(),
                p.len() <= s.len() - i ==> k <= p.len(),
                matched ==> p.len() <= s.len() - i,
                matched ==> forall|j: int| 0 <= j < k ==> s@[i + j] == p@[j],
                !matched ==> !(p@.len() <= s@.skip(i as int).len() && s@.skip(i as int).subrange(0, p@.len() as int) == p@),
            decreases p.len() - k, (if matched { 1int } else { 0 }),
        {
            if s[i + k] != p[k] {
                assert(s@.skip(i as int).subrange(0, p@.len() as int)[k as int] != p@[k as int]);
                matched = false;
            } else {
                k = k + 1;
            }
        }
        let ghost rest = s@.skip(i as int);
        if matched {
            assert(rest.subrange(0, p@.len() as int) =~= p@);
            assert(rest.skip(p@.len() as int) =~= s@.skip(i + p@.len()));
            let mut j: usize = 0;
            let ghost before = out@;
            while j < w.len()
                invariant
                    j <= w.len(),
                    out@ == before + w@.subrange(0, j as int),
                decreases w.len() - j,
            {
                out.push(w[j]);
                j = j + 1;
                assert(out@ =~= before + w@.subrange(0, j as int));
            }
            assert(w@.subrange(0, j as int) =~= w@);
            assert(out@ + replace_all(s@.skip(i + p@.len()), p@, w@) =~= before + replace_all(rest, p@, w@));
            i = i + p.len();
        } else {
            let ghost before = out@;
            out.push(s[i]);
            assert(rest.skip(1) =~= s@.skip(i + 1));
            assert(out@ + replace_all(s@.skip(i + 1), p@, w@) =~= before + replace_all(rest, p@, w@));
            i = i + 1;
        }
    }
    assert(s@.skip(i as int) =~= Seq::<char>::empty());
    assert(out@ =~= out@ + replace_all(s@.skip(i as int), p@, w@));
    out
}

/// The text without leading and trailing underscores.
pub open spec fn trim_underscores(s: Seq<char>) -> Seq<char>
    decreases s.len(),
{
    if s.len() > 0 && s[0] == '_' {
        trim_underscores(s.skip(1))
    } else if s.len() > 0 && s.last() == '_' {
        trim_underscores(s.drop_last())
    } else {
        s
    }
}

fn trim_underscores_chars(s: &Vec<char>) -> (r: Vec<char>)
    ensures
        r@ == trim_underscores(s@),
{
    let mut start: usize = 0;
    let mut end: usize = s.len();
    assert(s@.subrange(0, s.len() as int) =~= s@);
    while start < end && s[start] == '_'
        invariant
            start <= end == s.len(),
            trim_underscores(s@.subrange(start as int, end as int)) == trim_underscores(s@),
        decreases end - start,
    {
        assert(s@.subrange(start as int, end as int).skip(1) =~= s@.subrange(start + 1, end as int));
        start = start + 1;
    }
    while start < end && s[end - 1] == '_'
        invariant
            start <= end <= s.len(),
            start < end ==> s@[start as int] != '_',
            trim_underscores(s@.subrange(start as int, end as int)) == trim_underscores(s@),
        decreases end - start,
    {
        assert(s@.subrange(start as int, end as int).drop_last() =~= s@.subrange(start as int, end - 1));
        end = end - 1;
    }
    let mut r: Vec<char> = Vec::new();
    let mut i: usize = start;
    while i < end
        invariant
            start <= i <= end <= s.len(),
            r@ == s@.subrange(start as int, i as int),
        decreases end - i,
    {
        r.push(s[i]);
        i = i + 1;
        assert(r@ =~= s@.subrange(start as int, i as int));
    }
    r
}

/// The prefix of a regional form's emoji.
pub open spec fn regional_prefix(v: Option<RegionalVariant>) -> Seq<char> {
    match v {
        Some(RegionalVariant::Alola) => "alolan_"@,
        Some(RegionalVariant::Galar) => "galarian"@,
        Some(RegionalVariant::Hisui) => "hisuian_"@,
        Some(RegionalVariant::Paldea) => "paldean_"@,
        None => Seq::empty(),
    }
}

/// The species' name as an emoji name: lowercase, spaces as underscores, no
/// parentheses, no regional form words for regional forms, no underscores at the ends.
pub open spec fn emoji_base_name(p: Pokemon) -> Seq<char> {
    let n = replace_all(replace_all(replace_all(lowercase(p.name@), " "@, "_"@), "("@, ""@), ")"@, ""@);
    let m = if p.regional_variant is Some {
        replace_all(replace_all(replace_all(replace_all(n, "paldean_form"@, ""@), "hisuian_form"@, ""@), "galarian_form"@, ""@), "alolan_form"@, ""@)
    } else {
        n
    };
    trim_underscores(m)
}

/// Whether the female sprite is used: for female characters of species that look
/// different by phenotype.
pub open spec fn uses_female_sprite(p: Pokemon, g: Gender) -> bool {
    p.has_gender_differences && g == Gender::Female
}

/// The name of a species' emoji: `shiny_` for shiny ones, the regional prefix, the base
/// name, and `_female` for female sprites.
pub open spec fn emoji_name_spec(p: Pokemon, g: Gender, is_shiny: bool) -> Seq<char> {
    (if is_shiny { "shiny_"@ } else { Seq::empty() }) + regional_prefix(p.regional_variant) + emoji_base_name(p)
        + if uses_female_sprite(p, g) { "_female"@ } else { Seq::empty() }
}

/// The name of a species' emoji.
pub fn emoji_name(pokemon: &Pokemon, gender: &Gender, is_shiny: bool) -> (s: String)
    ensures
        s@ == emoji_name_spec(*pokemon, *gender, is_shiny),
{
    proof {
        reveal_strlit(" ");
        reveal_strlit("(");
        reveal_strlit(")");
        reveal_strlit("paldean_form");
        reveal_strlit("hisuian_form");
        reveal_strlit("galarian_form");
        reveal_strlit("alolan_form");
    }
    let lower = to_lowercase(pokemon.name.as_str());
    let chars = to_chars(lower.as_str());
    let a = replace_chars(&chars, " ", "_");
    let b = replace_chars(&a, "(", "");
    let c = replace_chars(&b, ")", "");
    let (d, prefix): (Vec<char>, &str) = match pokemon.regional_variant {
        Some(v) => {
            let d1 = replace_chars(&c, "paldean_form", "");
            let d2 = replace_chars(&d1, "hisuian_form", "");
            let d3 = replace_chars(&d2, "galarian_form", "");
            let d4 = replace_chars(&d3, "alolan_form", "");
            let prefix = match v {
                RegionalVariant::Alola => "alolan_",
                RegionalVariant::Galar => "galarian",
                RegionalVariant::Hisui => "hisuian_",
                RegionalVariant::Paldea => "paldean_",
            };
            (d4, prefix)
        },
        None => (c, ""),
    };
    let trimmed = trim_underscores_chars(&d);
    let base = from_chars(trimmed.as_slice());
    let mut s = String::new();
    if is_shiny {
        push_str(&mut s, "shiny_");
    }
    push_str(&mut s, prefix);
    push_str(&mut s, base.as_str());
    if pokemon.has_gender_differences && *gender == Gender::Female {
        push_str(&mut s, "_female");
    }
    proof {
        reveal_strlit("");
    }
    assert(s@ =~= emoji_name_spec(*pokemon, *gender, is_shiny));
    s
}

/// A sprite's pixels, row by row, each as red, green, blue and alpha.
pub struct SpriteImage {
    pub width: u32,
    pub height: u32,
    pub pixels: Vec<(u8, u8, u8, u8)>,
    /// Whether only the alpha channel decides that a pixel holds something; else any
    /// channel does.
    pub alpha_only: bool,
}

impl SpriteImage {
    /// Whether the pixel list holds exactly one pixel per position.
    pub open spec fn well_formed(&self) -> bool {
        self.pixels.len() == self.width * self.height
    }

    /// Whether the pixel at column `x` and row `y` holds something: its alpha is not
    /// zero, or, unless only alpha counts, any of its channels is not zero.
    pub open spec fn filled(&self, x: int, y: int) -> bool {
        if self.alpha_only {
            self.pixels@[y * self.width + x].3 > 0
        } else {
            self.pixels@[y * self.width + x] != (0u8, 0u8, 0u8, 0u8)
        }
    }

    pub open spec fn row_filled(&self, y: int) -> bool {
        exists|x: int| 0 <= x < self.width && #[trigger] self.filled(x, y)
    }

    pub open spec fn column_filled(&self, x: int) -> bool {
        exists|y: int| 0 <= y < self.height && #[trigger] self.filled(x, y)
    }

    fn pixel_filled(&self, x: u32, y: u32) -> (b: bool)
        requires
            self.well_formed(),
            x < self.width,
            y < self.height,
        ensures
            b == self.filled(x as int, y as int),
    {
        proof {
            assert(y * self.width + x < self.width * self.height) by (nonlinear_arith)
                requires
                    x < self.width,
                    y < self.height,
            ;
        }
        let index: usize = (y as usize) * (self.width as usize) + (x as usize);
        let p = self.pixels[index];
        if self.alpha_only {
            p.3 > 0
        } else {
            !(p.0 == 0 && p.1 == 0 && p.2 == 0 && p.3 == 0)
        }
    }

    fn row_has_pixel(&self, y: u32) -> (b: bool)
        requires
            self.well_formed(),
            y < self.height,
        ensures
            b == self.row_filled(y as int),
    {
        let mut x: u32 = 0;
        while x < self.width
            invariant
                self.well_formed(),
                y < self.height,
                x <= self.width,
                forall|k: int| 0 <= k < x ==> !#[trigger] self.filled(k, y as int),
            decreases self.width - x,
        {
            if self.pixel_filled(x, y) {
                return true;
            }
            x = x + 1;
        }
        false
    }

    fn column_has_pixel(&self, x: u32) -> (b: bool)
        requires
            self.well_formed(),
            x < self.width,
        ensures
            b == self.column_filled(x as int),
    {
        let mut y: u32 = 0;
        while y < self.height
            invariant
                self.well_formed(),
                x < self.width,
                y <= self.height,
                forall|k: int| 0 <= k < y ==> !#[trigger] self.filled(x as int, k),
            decreases self.height - y,
        {
            if self.pixel_filled(x, y) {
                return true;
            }
            y = y + 1;
        }
        false
    }

    /// The first row that holds something, or 0 for an empty sprite.
    pub fn find_top_border(&self) -> (r: u32)
        requires
            self.well_formed(),
        ensures
            (exists|y: int| 0 <= y < self.height && self.row_filled(y)) ==> {
                &&& r < self.height
                &&& self.row_filled(r as int)
                &&& forall|y: int| 0 <= y < r ==> !#[trigger] self.row_filled(y)
            },
            !(exists|y: int| 0 <= y < self.height && self.row_filled(y)) ==> r == 0,
    {
        let mut y: u32 = 0;
        while y < self.height
            invariant
                self.well_formed(),
                y <= self.height,
                forall|k: int| 0 <= k < y ==> !#[trigger] self.row_filled(k),
            decreases self.height - y,
        {
            if self.row_has_pixel(y) {
                return y;
            }
            y = y + 1;
        }
        0
    }

    /// One past the last row that holds something, or the height for an empty sprite.
    pub fn find_bottom_border(&self) -> (r: u32)
        requires
            self.well_formed(),
        ensures
            (exists|y: int| 0 <= y < self.height && self.row_filled(y)) ==> {
                &&& 0 < r <= self.height
                &&& self.row_filled(r - 1)
                &&& forall|y: int| r <= y < self.height ==> !#[trigger] self.row_filled(y)
            },
            !(exists|y: int| 0 <= y < self.height && self.row_filled(y)) ==> r == self.height,
    {
        let mut y: u32 = self.height;
        while y > 0
            invariant
                self.well_formed(),
                y <= self.height,
                forall|k: int| y <= k < self.height ==> !#[trigger] self.row_filled(k),
            decreases y,
        {
            if self.row_has_pixel(y - 1) {
                return y;
            }
            y = y - 1;
        }
        self.height
    }

    /// The first column that holds something, or 0 for an empty sprite.
    pub fn find_left_border(&self) -> (r: u32)
        requires
            self.well_formed(),
        ensures
            (exists|x: int| 0 <= x < self.width && self.column_filled(x)) ==> {
                &&& r < self.width
                &&& self.column_filled(r as int)
                &&& forall|x: int| 0 <= x < r ==> !#[trigger] self.column_filled(x)
            },
            !(exists|x: int| 0 <= x < self.width && self.column_filled(x)) ==> r == 0,
    {
        let mut x: u32 = 0;
        while x < self.width
            invariant
                self.well_formed(),
                x <= self.width,
                forall|k: int| 0 <= k < x ==> !#[trigger] self.column_filled(k),
            decreases self.width - x,
        {
            if self.column_has_pixel(x) {
                return x;
            }
            x = x + 1;
        }
        0
    }

    /// One past the last column that holds something, or the width for an empty sprite.
    pub fn find_right_border(&self) -> (r: u32)
        requires
            self.well_formed(),
        ensures
            (exists|x: int| 0 <= x < self.width && self.column_filled(x)) ==> {
                &&& 0 < r <= self.width
                &&& self.column_filled(r - 1)
                &&& forall|x: int| r <= x < self.width ==> !#[trigger] self.column_filled(x)
            },
            !(exists|x: int| 0 <= x < self.width && self.column_filled(x)) ==> r == self.width,
    {
        let mut x: u32 = self.width;
        while x > 0
            invariant
                self.well_formed(),
                x <= self.width,
                forall|k: int| x <= k < self.width ==> !#[trigger] self.column_filled(k),
            decreases x,
        {
            if self.column_has_pixel(x - 1) {
                return x;
            }
            x = x - 1;
        }
        self.width
    }

    /// Whether `r` (left, top, width and height) is the smallest rectangle that holds every
    /// filled pixel of the sprite, or the whole sprite where no pixel is filled.
    pub open spec fn is_crop_rectangle(&self, r: (u32, u32, u32, u32)) -> bool {
        &&& r.0 + r.2 <= self.width
        &&& r.1 + r.3 <= self.height
        &&& forall|x: int, y: int| 0 <= x < self.width && 0 <= y < self.height && #[trigger] self.filled(x, y)
                ==> r.0 <= x < r.0 + r.2 && r.1 <= y < r.1 + r.3
        &&& (exists|y: int| 0 <= y < self.height && self.row_filled(y)) ==> {
            &&& r.2 > 0
            &&& r.3 > 0
            &&& self.column_filled(r.0 as int)
            &&& self.column_filled(r.0 + r.2 - 1)
            &&& self.row_filled(r.1 as int)
            &&& self.row_filled(r.1 + r.3 - 1)
        }
        &&& !(exists|y: int| 0 <= y < self.height && self.row_filled(y)) ==> r == (0u32, 0u32, self.width, self.height)
    }

    /// The rectangle to keep of the sprite: left, top, width and height of the smallest
    /// rectangle that holds every filled pixel; the whole sprite if none is filled.
    pub fn crop_rectangle(&self) -> (r: (u32, u32, u32, u32))
        requires
            self.well_formed(),
        ensures
            self.is_crop_rectangle(r),
    {
        let top = self.find_top_border();
        let bottom = self.find_bottom_border();
        let left = self.find_left_border();
        let right = self.find_right_border();
        proof {
            if exists|y: int| 0 <= y < self.height && self.row_filled(y) {
                let y = choose|y: int| 0 <= y < self.height && self.row_filled(y);
                let x = choose|x: int| 0 <= x < self.width && #[trigger] self.filled(x, y);
                assert(self.column_filled(x));
            }
            if exists|x: int| 0 <= x < self.width && self.column_filled(x) {
                let x = choose|x: int| 0 <= x < self.width && self.column_filled(x);
                let y = choose|y: int| 0 <= y < self.height && #[trigger] self.filled(x, y);
                assert(self.row_filled(y));
            }
            assert forall|x: int, y: int| 0 <= x < self.width && 0 <= y < self.height && #[trigger] self.filled(x, y)
                implies left <= x < right && top <= y < bottom by {
                assert(self.row_filled(y));
                assert(self.column_filled(x));
            }
        }
        (left, top, right - left, bottom - top)
    }
}

/// A crop rectangle grown upwards, as far as the sprite reaches, until it is as high as it
/// is wide, so that the Pokemon stands at the bottom of a square.
pub open spec fn squared_up(c: (u32, u32, u32, u32)) -> (u32, u32, u32, u32) {
    let (left, top, width, height) = c;
    let new_top: int = if height < width {
        if width - height > top { 0 } else { top - (width - height) }
    } else {
        top as int
    };
    (left, new_top as u32, width, (top + height - new_top) as u32)
}

impl SpriteImage {
    /// The rectangle to keep of a sprite for an emoji: the smallest rectangle that holds
    /// every filled pixel, squared up. The sides are compared as `i32`, so both must fit.
    pub fn square_crop_rectangle(&self) -> (r: (u32, u32, u32, u32))
        requires
            self.well_formed(),
            self.width <= i32::MAX,
            self.height <= i32::MAX,
        ensures
            exists|c: (u32, u32, u32, u32)| self.is_crop_rectangle(c) && r == squared_up(c),
    {
        let c = self.crop_rectangle();
        let (left, top, width, height) = c;
        let bottom = top + height;
        let mut top_border = top;
        if height < width {
            let diff = width - height;
            if diff > top_border {
                top_border = 0;
            } else {
                top_border = top_border - diff;
            }
        }
        let r = (left, top_border, width, bottom - top_border);
        assert(r == squared_up(c));
        r
    }
}

/// Where a sprite for an emoji lies below the sprite directory: `sprites/pokemon/`, the
/// animated folder, `shiny/`, `female/`, the species' id, and `gif` for animated
/// sprites, `png` for others.
pub open spec fn emoji_sprite_path_text(base: Seq<char>, id: u16, is_female: bool, is_shiny: bool, is_animated: bool) -> Seq<char> {
    base + "sprites/pokemon/"@ + (if is_animated { "versions/generation-v/black-white/animated/"@ } else { Seq::empty() })
        + (if is_shiny { "shiny/"@ } else { Seq::empty() }) + (if is_female { "female/"@ } else { Seq::empty() })
        + nat_digits(id as nat) + (if is_animated { ".gif"@ } else { ".png"@ })
}

/// The path of the sprite that an emoji is made from.
pub fn emoji_sprite_path(base: &str, pokemon: &Pokemon, is_female: bool, is_shiny: bool, is_animated: bool) -> (s: String)
    ensures
        s@ == emoji_sprite_path_text(base@, pokemon.poke_api_id, is_female, is_shiny, is_animated),
{
    let mut s = String::new();
    push_str(&mut s, base);
    push_str(&mut s, "sprites/pokemon/");
    if is_animated {
        push_str(&mut s, "versions/generation-v/black-white/animated/");
    }
    if is_shiny {
        push_str(&mut s, "shiny/");
    }
    if is_female {
        push_str(&mut s, "female/");
    }
    push_u64(&mut s, pokemon.poke_api_id as u64);
    if is_animated {
        push_str(&mut s, ".gif");
    } else {
        push_str(&mut s, ".png");
    }
    assert(s@ =~= emoji_sprite_path_text(base@, pokemon.poke_api_id, is_female, is_shiny, is_animated));
    s
}

/// Which emoji to create for a species: the still one unless it exists, and the animated
/// one where the species has an animated sprite and it does not exist; with their count.
pub fn emojis_to_create(has_animated_sprite: bool, still_exists: bool, animated_exists: bool) -> (r: (bool, bool, u8))
    ensures
        r.0 == !still_exists,
        r.1 == (has_animated_sprite && !animated_exists),
        r.2 == (if r.0 { 1int } else { 0 }) + (if r.1 { 1int } else { 0 }),
{
    let still = !still_exists;
    let animated = has_animated_sprite && !animated_exists;
    let count: u8 = (if still { 1 } else { 0 }) + (if animated { 1 } else { 0 });
    (still, animated, count)
}

/// The pixels that decoding an image file gives, as `image::load_from_memory` and
/// `to_rgba8` give them: width, height and the pixels row by row; `None` where the bytes
/// are not an image of a known format.
pub uninterp spec fn decoded_rgba(bytes: Seq<u8>) -> Option<(u32, u32, Seq<(u8, u8, u8, u8)>)>;

/// The PNG file that the `image` crate writes for RGBA pixels of a width and height;
/// `None` where it writes none.
pub uninterp spec fn png_encoding(width: u32, height: u32, pixels: Seq<(u8, u8, u8, u8)>) -> Option<Seq<u8>>;

/// `image::load_from_memory` (format guessed from the bytes), then `to_rgba8`: the width,
/// the height and the pixels row by row, one per position, as `decoded_rgba` names them.
#[verifier::external_body]
fn decode_rgba(bytes: &Vec<u8>) -> (r: Option<(u32, u32, Vec<(u8, u8, u8, u8)>)>)
    ensures
        match r {
            Some(d) => decoded_rgba(bytes@) == Some((d.0, d.1, d.2@)) && d.2.len() == d.0 * d.1,
            None => decoded_rgba(bytes@) is None,
        },
{
    match image::load_from_memory(bytes.as_slice()) {
        Ok(img) => {
            let rgba = img.to_rgba8();
            let pixels = rgba.pixels().map(|p| (p.0[0], p.0[1], p.0[2], p.0[3])).collect();
            Some((rgba.width(), rgba.height(), pixels))
        },
        Err(_) => None,
    }
}

/// `image::RgbaImage::from_raw` on the pixels, then `DynamicImage::write_to` with
/// `ImageOutputFormat::Png` into memory: the PNG file, as `png_encoding` names it.
#[verifier::external_body]
fn encode_png(width: u32, height: u32, pixels: &Vec<(u8, u8, u8, u8)>) -> (r: Option<Vec<u8>>)
    ensures
        match r {
            Some(b) => png_encoding(width, height, pixels@) == Some(b@),
            None => png_encoding(width, height, pixels@) is None,
        },
{
    let raw: Vec<u8> = pixels.iter().flat_map(|p| [p.0, p.1, p.2, p.3]).collect();
    let img = image::RgbaImage::from_raw(width, height, raw)?;
    let mut out = std::io::Cursor::new(Vec::new());
    image::DynamicImage::ImageRgba8(img).write_to(&mut out, image::ImageOutputFormat::Png).ok()?;
    Some(out.into_inner())
}

/// Whether `cropped` is the part of an image (`pixels`, rows of `width`) inside a
/// rectangle (left, top, width, height), row by row.
pub open spec fn is_crop_of(pixels: Seq<(u8, u8, u8, u8)>, width: u32, rect: (u32, u32, u32, u32), cropped: Seq<(u8, u8, u8, u8)>) -> bool {
    &&& cropped.len() == rect.2 * rect.3
    &&& forall|y: int, x: int| 0 <= y < rect.3 && 0 <= x < rect.2
            ==> #[trigger] cropped[y * rect.2 + x] == pixels[(rect.1 + y) * width + rect.0 + x]
}

/// The pixels of a sprite inside a rectangle, row by row (`DynamicImage::crop_imm`).
pub fn crop_pixels(s: &SpriteImage, rect: (u32, u32, u32, u32)) -> (r: Vec<(u8, u8, u8, u8)>)
    requires
        s.well_formed(),
        rect.0 + rect.2 <= s.width,
        rect.1 + rect.3 <= s.height,
    ensures
        is_crop_of(s.pixels@, s.width, rect, r@),
{
    let (left, top, w, h) = rect;
    let mut r: Vec<(u8, u8, u8, u8)> = Vec::new();
    let mut y: u32 = 0;
    while y < h
        invariant
            s.well_formed(),
            rect == (left, top, w, h),
            left + w <= s.width,
            top + h <= s.height,
            y <= h,
            r.len() == y * w,
            forall|yy: int, x: int| 0 <= yy < y && 0 <= x < w
                ==> #[trigger] r@[yy * w + x] == s.pixels@[(top + yy) * s.width + left + x],
        decreases h - y,
    {
        let mut x: u32 = 0;
        while x < w
            invariant
                s.well_formed(),
                left + w <= s.width,
                top + h <= s.height,
                y < h,
                x <= w,
                r.len() == y * w + x,
                forall|yy: int, xx: int| 0 <= yy < y && 0 <= xx < w
                    ==> #[trigger] r@[yy * w + xx] == s.pixels@[(top + yy) * s.width + left + xx],
                forall|xx: int| 0 <= xx < x ==> #[trigger] r@[y * w + xx] == s.pixels@[(top + y) * s.width + left + xx],
            decreases w - x,
        {
            proof {
                assert((top + y) * s.width + left + x < s.width * s.height) by (nonlinear_arith)
                    requires
                        top + y < s.height,
                        left + x < s.width,
                ;
            }
            let index: usize = ((top + y) as usize) * (s.width as usize) + (left as usize) + (x as usize);
            let ghost before = r@;
            r.push(s.pixels[index]);
            proof {
                assert forall|yy: int, xx: int| 0 <= yy < y && 0 <= xx < w
                    implies #[trigger] r@[yy * w + xx] == s.pixels@[(top + yy) * s.width + left + xx] by {
                    assert(yy * w + xx < y * w) by (nonlinear_arith)
                        requires
                            0 <= yy < y,
                            0 <= xx < w,
                    ;
                    assert(r@[yy * w + xx] == before[yy * w + xx]);
                }
            }
            x = x + 1;
        }
        proof {
            assert(r.len() == (y + 1) * w) by (nonlinear_arith)
                requires
                    r.len() == y * w + w,
            ;
            assert forall|yy: int, xx: int| 0 <= yy < y + 1 && 0 <= xx < w
                implies #[trigger] r@[yy * w + xx] == s.pixels@[(top + yy) * s.width + left + xx] by {
                if yy == y {
                    assert(r@[y * w + xx] == s.pixels@[(top + y) * s.width + left + xx]);
                }
            }
        }
        y = y + 1;
    }
    proof {
        assert(r.len() == w * h) by (nonlinear_arith)
            requires
                r.len() == y * w,
                y == h,
        ;
    }
    r
}

/// The rectangle kept of a sprite: its crop rectangle, squared up for emoji made
/// square.
pub open spec fn kept_rectangle(c: (u32, u32, u32, u32), square: bool) -> (u32, u32, u32, u32) {
    if square { squared_up(c) } else { c }
}

/// The bytes of an emoji made from a sprite file: an animated sprite as it is; else the
/// decoded sprite cut to its filled part and written as PNG. A sprite made square counts
/// only transparency as empty and is squared up; one that is not counts any non-zero
/// channel. `None` where the file does not decode, where a square sprite's sides do not
/// fit an `i32`, or where no PNG is written.
pub open spec fn emoji_image_of(file: Seq<u8>, is_animated: bool, square: bool, r: Option<Seq<u8>>) -> bool {
    if is_animated {
        r == Some(file)
    } else {
        match decoded_rgba(file) {
            None => r is None,
            Some(d) => if square && (d.0 > i32::MAX || d.1 > i32::MAX) {
                r is None
            } else {
                exists|s: SpriteImage, c: (u32, u32, u32, u32), cropped: Seq<(u8, u8, u8, u8)>|
                    #![trigger s.is_crop_rectangle(c), is_crop_of(d.2, d.0, kept_rectangle(c, square), cropped)]
                    s.width == d.0 && s.height == d.1 && s.pixels@ == d.2 && s.alpha_only == square
                    && s.is_crop_rectangle(c)
                    && is_crop_of(d.2, d.0, kept_rectangle(c, square), cropped)
                    && r == png_encoding(kept_rectangle(c, square).2, kept_rectangle(c, square).3, cropped)
            },
        }
    }
}

/// A sprite has one crop rectangle.
proof fn lemma_crop_rectangle_unique(s: SpriteImage, a: (u32, u32, u32, u32), b: (u32, u32, u32, u32))
    requires
        s.is_crop_rectangle(a),
        s.is_crop_rectangle(b),
    ensures
        a == b,
{
    if exists|y: int| 0 <= y < s.height && s.row_filled(y) {
        let y1 = choose|y: int| 0 <= y < s.height && #[trigger] s.filled(a.0 as int, y);
        assert(s.filled(a.0 as int, y1));
        let y2 = choose|y: int| 0 <= y < s.height && #[trigger] s.filled(b.0 as int, y);
        assert(s.filled(b.0 as int, y2));
        let y3 = choose|y: int| 0 <= y < s.height && #[trigger] s.filled(a.0 + a.2 - 1, y);
        assert(s.filled(a.0 + a.2 - 1, y3));
        let y4 = choose|y: int| 0 <= y < s.height && #[trigger] s.filled(b.0 + b.2 - 1, y);
        assert(s.filled(b.0 + b.2 - 1, y4));
        let x1 = choose|x: int| 0 <= x < s.width && #[trigger] s.filled(x, a.1 as int);
        assert(s.filled(x1, a.1 as int));
        let x2 = choose|x: int| 0 <= x < s.width && #[trigger] s.filled(x, b.1 as int);
        assert(s.filled(x2, b.1 as int));
        let x3 = choose|x: int| 0 <= x < s.width && #[trigger] s.filled(x, a.1 + a.3 - 1);
        assert(s.filled(x3, a.1 + a.3 - 1));
        let x4 = choose|x: int| 0 <= x < s.width && #[trigger] s.filled(x, b.1 + b.3 - 1);
        assert(s.filled(x4, b.1 + b.3 - 1));
    }
}

/// The kept rectangle of a sprite lies inside it.
proof fn lemma_squared_up_fits(s: SpriteImage, c: (u32, u32, u32, u32))
    requires
        s.is_crop_rectangle(c),
    ensures
        squared_up(c).0 + squared_up(c).2 <= s.width,
        squared_up(c).1 + squared_up(c).3 <= s.height,
{
}

/// The bytes of an emoji made from a sprite file; see `emoji_image_of`.
pub fn emoji_image_bytes(file: &Vec<u8>, is_animated: bool, square: bool) -> (r: Option<Vec<u8>>)
    ensures
        emoji_image_of(file@, is_animated, square, match r {
            Some(b) => Some(b@),
            None => None,
        }),
{
    if is_animated {
        let copy = file.clone();
        assert(copy@ == file@);
        return Some(copy);
    }
    let decoded = decode_rgba(file);
    match decoded {
        None => {
            assert(decoded_rgba(file@) is None);
            None
        },
        Some((width, height, pixels)) => {
            if square && (width > i32::MAX as u32 || height > i32::MAX as u32) {
                return None;
            }
            let sprite = SpriteImage { width, height, pixels, alpha_only: square };
            let c = sprite.crop_rectangle();
            let rect = if square { sprite.square_crop_rectangle() } else { c };
            proof {
                if square {
                    let c2 = choose|c2: (u32, u32, u32, u32)| sprite.is_crop_rectangle(c2) && rect == squared_up(c2);
                    lemma_crop_rectangle_unique(sprite, c, c2);
                }
                lemma_squared_up_fits(sprite, c);
            }
            let cropped = crop_pixels(&sprite, rect);
            let r = encode_png(rect.2, rect.3, &cropped);
            proof {
                assert(rect == kept_rectangle(c, square));
                assert(sprite.is_crop_rectangle(c));
                assert(is_crop_of(sprite.pixels@, sprite.width, kept_rectangle(c, square), cropped@));
                assert(decoded_rgba(file@) == Some((width, height, sprite.pixels@)));
                let rr: Option<Seq<u8>> = if r is Some { Some(r->0@) } else { None };
                assert(rr == png_encoding(kept_rectangle(c, square).2, kept_rectangle(c, square).3, cropped@));
                let d = decoded_rgba(file@)->0;
                assert(is_crop_of(d.2, d.0, kept_rectangle(c, square), cropped@));
                assert(sprite.width == d.0 && sprite.height == d.1 && sprite.pixels@ == d.2 && sprite.alpha_only == square);
                assert(emoji_image_of(file@, is_animated, square, rr));
            }
            r
        },
    }
}

} // verus!

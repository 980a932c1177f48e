//! Text forms that the canvas reads: CSS colors and decimal numbers.
use vstd::prelude::*;

use crate::strings::string_push;

verus! {

/// The ASCII character of a digit value below 16, lower case for 10..15.
pub open spec fn digit_char(d: nat) -> char {
    if d < 10 {
        (48 + d) as char
    } else {
        (87 + d) as char
    }
}

/// Decimal text of `n`, without leading zeros ("0" for zero).
pub open spec fn decimal(n: nat) -> Seq<char>
    decreases n,
{
    if n < 10 {
        seq![digit_char(n)]
    } else {
        decimal(n / 10).push(digit_char(n % 10))
    }
}

/// The last `width` digits of `n` written in base `base`, padded with zeros.
pub open spec fn fixed_digits(n: nat, base: nat, width: nat) -> Seq<char>
    decreases width,
{
    if width == 0 || base == 0 {
        Seq::empty()
    } else {
        fixed_digits(n / base, base, (width - 1) as nat).push(digit_char(n % base))
    }
}

/// Red, green, blue and alpha bytes of a color packed as 0xRRGGBBAA.
pub open spec fn red(rgba: u32) -> nat {
    (rgba as nat) / 0x100_0000
}

pub open spec fn green(rgba: u32) -> nat {
    ((rgba as nat) / 0x1_0000) % 256
}

pub open spec fn blue(rgba: u32) -> nat {
    ((rgba as nat) / 0x100) % 256
}

pub open spec fn alpha(rgba: u32) -> nat {
    (rgba as nat) % 256
}

/// The alpha byte as a fraction of 255, rounded to thousandths
/// (`a / 255` printed with three decimals).
pub open spec fn alpha_thousandths(a: nat) -> nat {
    (2000 * a + 255) / 510
}

/// The CSS color text of a packed 0xRRGGBBAA color: `#rrggbb` when it is
/// opaque, `rgba(r,g,b,0.ddd)` otherwise.
pub open spec fn css_color(rgba: u32) -> Seq<char> {
    if alpha(rgba) == 255 {
        seq!['#'] + fixed_digits((rgba as nat) / 256, 16, 6)
    } else {
        seq!['r', 'g', 'b', 'a', '('] + decimal(red(rgba)) + seq![','] + decimal(green(rgba))
            + seq![','] + decimal(blue(rgba)) + seq![',', '0', '.']
            + fixed_digits(alpha_thousandths(alpha(rgba)), 10, 3) + seq![')']
    }
}

fn digit(d: u32) -> (c: char)
    requires
        d < 16,
    ensures
        c == digit_char(d as nat),
{
    if d < 10 {
        ((48 + d) as u8) as char
    } else {
        ((87 + d) as u8) as char
    }
}

/// Appends the decimal text of `n`.
pub fn push_decimal(s: &mut String, n: u32)
    ensures
        final(s)@ == old(s)@ + decimal(n as nat),
    decreases n,
{
    if n >= 10 {
        push_decimal(s, n / 10);
    }
    string_push(s, digit(n % 10));
}

/// Appends the last `width` digits of `n` in base `base`, zero padded.
pub fn push_fixed_digits(s: &mut String, n: u32, base: u32, width: u32)
    requires
        2 <= base <= 16,
    ensures
        final(s)@ == old(s)@ + fixed_digits(n as nat, base as nat, width as nat),
    decreases width,
{
    if width > 0 {
        push_fixed_digits(s, n / base, base, width - 1);
        string_push(s, digit(n % base));
    }
}

/// The CSS text of a packed 0xRRGGBBAA color, as the canvas fill and
/// stroke styles take it.
pub fn format_color(rgba: u32) -> (r: String)
    ensures
        r@ == css_color(rgba),
{
    let rgb = rgba >> 8;
    let a = rgba & 0xff;
    assert(rgb == rgba / 256 && a == rgba % 256) by (bit_vector)
        requires
            rgb == rgba >> 8,
            a == rgba & 0xff,
    ;
    let mut s = String::new();
    if a == 0xff {
        string_push(&mut s, '#');
        push_fixed_digits(&mut s, rgba >> 8, 16, 6);
        assert(s@ =~= css_color(rgba));
    } else {
        let r = (rgb >> 16) & 0xff;
        let g = (rgb >> 8) & 0xff;
        let b = rgb & 0xff;
        assert(r == rgba / 0x100_0000 && g == (rgba / 0x1_0000) % 256 && b == (rgba / 256) % 256)
            by (bit_vector)
            requires
                rgb == rgba / 256,
                r == (rgb >> 16) & 0xff,
                g == (rgb >> 8) & 0xff,
                b == rgb & 0xff,
        ;
        let frac = (2000 * a + 255) / 510;
        string_push(&mut s, 'r');
        string_push(&mut s, 'g');
        string_push(&mut s, 'b');
        string_push(&mut s, 'a');
        string_push(&mut s, '(');
        push_decimal(&mut s, r);
        string_push(&mut s, ',');
        push_decimal(&mut s, g);
        string_push(&mut s, ',');
        push_decimal(&mut s, b);
        string_push(&mut s, ',');
        string_push(&mut s, '0');
        string_push(&mut s, '.');
        push_fixed_digits(&mut s, frac, 10, 3);
        string_push(&mut s, ')');
        assert(s@ =~= css_color(rgba));
    }
    s
}


/// Distinct digit values below 16 have distinct characters, and none of
/// them is ','.
proof fn lemma_digit_char(d: nat, e: nat)
    requires
        d < 16,
        e < 16,
    ensures
        digit_char(d) == digit_char(e) ==> d == e,
        digit_char(d) != ',',
{
}

/// Decimal text holds no ',' and is never empty.
proof fn lemma_decimal_shape(n: nat)
    ensures
        decimal(n).len() >= 1,
        n >= 10 ==> decimal(n).len() >= 2,
        forall|i: int| 0 <= i < decimal(n).len() ==> #[trigger] decimal(n)[i] != ',',
    decreases n,
{
    lemma_digit_char(n % 10, 0);
    if n >= 10 {
        lemma_decimal_shape(n / 10);
        assert forall|i: int| 0 <= i < decimal(n).len() implies #[trigger] decimal(n)[i] != ',' by {
            if i < decimal(n / 10).len() {
                assert(decimal(n)[i] == decimal(n / 10)[i]);
            }
        }
    }
}

/// Distinct numbers have distinct decimal text.
proof fn lemma_decimal_injective(m: nat, n: nat)
    requires
        decimal(m) == decimal(n),
    ensures
        m == n,
    decreases m,
{
    lemma_decimal_shape(m);
    lemma_decimal_shape(n);
    if m >= 10 && n >= 10 {
        let (dm, dn) = (decimal(m), decimal(n));
        assert(dm =~= decimal(m / 10).push(digit_char(m % 10)));
        assert(dn =~= decimal(n / 10).push(digit_char(n % 10)));
        assert(dm.last() == digit_char(m % 10));
        assert(dn.last() == digit_char(n % 10));
        lemma_digit_char(m % 10, n % 10);
        assert(m % 10 == n % 10);
        assert(decimal(m / 10) =~= dm.drop_last());
        assert(decimal(n / 10) =~= dn.drop_last());
        lemma_decimal_injective(m / 10, n / 10);
        assert(m == 10 * (m / 10) + m % 10 && n == 10 * (n / 10) + n % 10) by (nonlinear_arith);
        assert(m / 10 == n / 10);
        assert(m == n);
    } else if m < 10 && n < 10 {
        assert(decimal(m) =~= seq![digit_char(m)]);
        assert(decimal(n) =~= seq![digit_char(n)]);
        assert(decimal(m)[0] == digit_char(m));
        assert(decimal(n)[0] == digit_char(n));
        lemma_digit_char(m, n);
        assert(m == n);
    } else if m < 10 {
        assert(decimal(m) =~= seq![digit_char(m)]);
    } else {
        assert(decimal(n) =~= seq![digit_char(n)]);
    }
}

/// `base` to the power `width`.
spec fn place_value(base: nat, width: nat) -> nat
    decreases width,
{
    if width == 0 {
        1
    } else {
        base * place_value(base, (width - 1) as nat)
    }
}

/// `width` digits are `width` characters.
pub proof fn lemma_fixed_digits_len(n: nat, base: nat, width: nat)
    requires
        base >= 2,
    ensures
        fixed_digits(n, base, width).len() == width,
    decreases width,
{
    if width > 0 {
        lemma_fixed_digits_len(n / base, base, (width - 1) as nat);
    }
}

/// Two numbers below `base` to the power `width` with the same `width` digits
/// are equal.
proof fn lemma_fixed_digits_injective(m: nat, n: nat, base: nat, width: nat)
    requires
        2 <= base <= 16,
        m < place_value(base, width),
        n < place_value(base, width),
        fixed_digits(m, base, width) == fixed_digits(n, base, width),
    ensures
        m == n,
    decreases width,
{
    if width > 0 {
        let p = place_value(base, (width - 1) as nat);
        assert(place_value(base, width) == base * p);
        assert(m / base < p && n / base < p) by (nonlinear_arith)
            requires
                m < base * p,
                n < base * p,
                base >= 2,
        ;
        lemma_digit_char(m % base, n % base);
        assert(fixed_digits(m, base, width).last() == digit_char(m % base));
        assert(fixed_digits(n, base, width).last() == digit_char(n % base));
        assert(fixed_digits(m / base, base, (width - 1) as nat) =~= fixed_digits(
            m,
            base,
            width,
        ).drop_last());
        assert(fixed_digits(n / base, base, (width - 1) as nat) =~= fixed_digits(
            n,
            base,
            width,
        ).drop_last());
        lemma_fixed_digits_injective(m / base, n / base, base, (width - 1) as nat);
        assert(m == base * (m / base) + m % base && n == base * (n / base) + n % base)
            by (nonlinear_arith)
            requires
                base >= 2,
        ;
    }
}

/// A text made of a decimal number, a ',' and a rest gives back the number
/// and the rest.
proof fn lemma_split_decimal(a: nat, b: nat, r: Seq<char>, s: Seq<char>)
    requires
        decimal(a) + seq![','] + r == decimal(b) + seq![','] + s,
    ensures
        a == b,
        r == s,
{
    let da = decimal(a);
    let db = decimal(b);
    let x = da + seq![','] + r;
    let y = db + seq![','] + s;
    lemma_decimal_shape(a);
    lemma_decimal_shape(b);
    if da.len() < db.len() {
        assert(x[da.len() as int] == ',');
        assert(y[da.len() as int] == db[da.len() as int]);
    } else if db.len() < da.len() {
        assert(y[db.len() as int] == ',');
        assert(x[db.len() as int] == da[db.len() as int]);
    }
    assert(da =~= x.subrange(0, da.len() as int));
    assert(db =~= y.subrange(0, db.len() as int));
    lemma_decimal_injective(a, b);
    assert(r =~= x.subrange(da.len() as int + 1, x.len() as int));
    assert(s =~= y.subrange(db.len() as int + 1, y.len() as int));
}

/// Rounding to thousandths keeps distinct alpha bytes apart.
proof fn lemma_alpha_thousandths(a: nat, b: nat)
    requires
        a < b < 256,
    ensures
        alpha_thousandths(a) < alpha_thousandths(b) < 1000 || b == 255,
        alpha_thousandths(a) < 1000,
{
    assert((2000 * a + 255) / 510 + 1 <= (2000 * a + 765) / 510) by (nonlinear_arith)
        requires
            a >= 0,
    ;
    assert((2000 * a + 765) / 510 <= (2000 * b + 255) / 510) by (nonlinear_arith)
        requires
            a < b,
    ;
    assert(b < 255 ==> (2000 * b + 255) / 510 < 1000) by (nonlinear_arith);
    assert((2000 * a + 255) / 510 < 1000) by (nonlinear_arith)
        requires
            a < 255,
    ;
}

/// A color is its four bytes.
proof fn lemma_color_bytes(x: u32)
    ensures
        x as nat == red(x) * 0x100_0000 + green(x) * 0x1_0000 + blue(x) * 0x100 + alpha(x),
        (x as nat) / 256 < 0x100_0000,
        x as nat == ((x as nat) / 256) * 256 + alpha(x),
{
    assert(x == (x / 0x100_0000) * 0x100_0000 + ((x / 0x1_0000) % 256) * 0x1_0000 + ((x / 0x100)
        % 256) * 0x100 + x % 256) by (bit_vector);
    assert(x / 256 < 0x100_0000) by (bit_vector);
    assert(x == (x / 256) * 256 + x % 256) by (bit_vector);
}

/// The text after "rgba(": each decimal byte followed by ',', then the alpha.
spec fn rgba_fields(x: u32) -> Seq<char> {
    decimal(red(x)) + seq![','] + (decimal(green(x)) + seq![','] + (decimal(blue(x)) + seq![',']
        + (seq!['0', '.'] + fixed_digits(alpha_thousandths(alpha(x)), 10, 3) + seq![')'])))
}

proof fn lemma_rgba_layout(x: u32)
    requires
        alpha(x) != 255,
    ensures
        css_color(x) == seq!['r', 'g', 'b', 'a', '('] + rgba_fields(x),
        rgba_fields(x) == css_color(x).subrange(5, css_color(x).len() as int),
{
    assert(css_color(x) =~= seq!['r', 'g', 'b', 'a', '('] + rgba_fields(x));
    assert(rgba_fields(x) =~= css_color(x).subrange(5, css_color(x).len() as int));
}

/// Two translucent colors with the same CSS text have the same bytes, but
/// for alpha, which they round to the same thousandth.
proof fn lemma_rgba_fields_injective(x: u32, y: u32)
    requires
        alpha(x) != 255,
        alpha(y) != 255,
        rgba_fields(x) == rgba_fields(y),
    ensures
        red(x) == red(y),
        green(x) == green(y),
        blue(x) == blue(y),
        alpha_thousandths(alpha(x)) == alpha_thousandths(alpha(y)),
{
    let tx = fixed_digits(alpha_thousandths(alpha(x)), 10, 3);
    let ty = fixed_digits(alpha_thousandths(alpha(y)), 10, 3);
    let ax = seq!['0', '.'] + tx + seq![')'];
    let ay = seq!['0', '.'] + ty + seq![')'];
    let bx = decimal(blue(x)) + seq![','] + ax;
    let by = decimal(blue(y)) + seq![','] + ay;
    let gx = decimal(green(x)) + seq![','] + bx;
    let gy = decimal(green(y)) + seq![','] + by;
    lemma_split_decimal(red(x), red(y), gx, gy);
    lemma_split_decimal(green(x), green(y), bx, by);
    lemma_split_decimal(blue(x), blue(y), ax, ay);
    lemma_fixed_digits_len(alpha_thousandths(alpha(x)), 10, 3);
    lemma_fixed_digits_len(alpha_thousandths(alpha(y)), 10, 3);
    assert(tx =~= ax.subrange(2, 5));
    assert(ty =~= ay.subrange(2, 5));
    assert(place_value(10, 3) == 1000) by {
        reveal_with_fuel(place_value, 4);
    }
    let (a, b) = (alpha(x), alpha(y));
    if a < b {
        lemma_alpha_thousandths(a, b);
    } else if b < a {
        lemma_alpha_thousandths(b, a);
    }
    if a < 255 && b < 255 && a != b {
        lemma_fixed_digits_injective(alpha_thousandths(a), alpha_thousandths(b), 10, 3);
    }
}

/// Two translucent colors with the same CSS text are equal.
proof fn lemma_rgba_text_injective(x: u32, y: u32)
    requires
        alpha(x) != 255,
        alpha(y) != 255,
        css_color(x) == css_color(y),
    ensures
        x == y,
{
    lemma_rgba_layout(x);
    lemma_rgba_layout(y);
    lemma_rgba_fields_injective(x, y);
    let (a, b) = (alpha(x), alpha(y));
    if a < b {
        lemma_alpha_thousandths(a, b);
    } else if b < a {
        lemma_alpha_thousandths(b, a);
    }
    lemma_color_bytes(x);
    lemma_color_bytes(y);
}

/// Distinct colors have distinct CSS text: the text keeps every bit of the
/// color, the alpha byte included.
pub proof fn lemma_css_color_injective(x: u32, y: u32)
    requires
        css_color(x) == css_color(y),
    ensures
        x == y,
{
    let (sx, sy) = (css_color(x), css_color(y));
    lemma_color_bytes(x);
    lemma_color_bytes(y);
    if alpha(x) == 255 && alpha(y) == 255 {
        assert(place_value(16, 6) == 0x100_0000) by {
            reveal_with_fuel(place_value, 7);
        }
        assert(fixed_digits((x as nat) / 256, 16, 6) =~= sx.drop_first());
        assert(fixed_digits((y as nat) / 256, 16, 6) =~= sy.drop_first());
        lemma_fixed_digits_injective((x as nat) / 256, (y as nat) / 256, 16, 6);
    } else if alpha(x) != 255 && alpha(y) != 255 {
        lemma_rgba_text_injective(x, y);
    } else {
        assert(sx[0] != sy[0]);
    }
}

} // verus!

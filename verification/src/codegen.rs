//! Backends that turn a tree into text: a GLSL expression equivalent to the
//! numeric evaluation of the tree, and a human-readable rendering.
//!
//! Fixed-point parameters are printed as plain decimal literals with six
//! fractional digits, so the printed text denotes exactly the value the
//! parameter stands for.

use vstd::prelude::*;
use vstd::string::StringExecFns;
use crate::operations::Operation;

verus! {

/// The decimal digit character for a value of 0 to 9.
pub open spec fn digit_char(d: nat) -> char {
    if d == 0 {
        '0'
    } else if d == 1 {
        '1'
    } else if d == 2 {
        '2'
    } else if d == 3 {
        '3'
    } else if d == 4 {
        '4'
    } else if d == 5 {
        '5'
    } else if d == 6 {
        '6'
    } else if d == 7 {
        '7'
    } else if d == 8 {
        '8'
    } else {
        '9'
    }
}

/// The decimal digits of a natural number, most significant first.
pub open spec fn dec_str(n: nat) -> Seq<char>
    decreases n,
{
    if n < 10 {
        seq![digit_char(n)]
    } else {
        dec_str(n / 10).push(digit_char(n % 10))
    }
}

/// Six decimal digits, zero padded: the fractional part of a coefficient.
pub open spec fn frac6_str(n: nat) -> Seq<char> {
    seq![
        digit_char((n / 100_000) % 10),
        digit_char((n / 10_000) % 10),
        digit_char((n / 1_000) % 10),
        digit_char((n / 100) % 10),
        digit_char((n / 10) % 10),
        digit_char(n % 10),
    ]
}

/// The magnitude of a fixed-point coefficient, in micro-units.
pub open spec fn coeff_abs(v: i64) -> nat {
    if v < 0 {
        (-(v as int)) as nat
    } else {
        v as nat
    }
}

/// A fixed-point coefficient as a decimal literal: optional minus sign, the
/// whole units, a point, and exactly six fractional digits.
pub open spec fn coeff_str(v: i64) -> Seq<char> {
    (if v < 0 {
        "-"@
    } else {
        Seq::<char>::empty()
    }) + dec_str(coeff_abs(v) / 1_000_000) + "."@ + frac6_str(coeff_abs(v) % 1_000_000)
}

fn digit_str(d: u64) -> (r: &'static str)
    requires
        d < 10,
    ensures
        r@ == seq![digit_char(d as nat)],
{
    let r: &'static str = if d == 0 {
        "0"
    } else if d == 1 {
        "1"
    } else if d == 2 {
        "2"
    } else if d == 3 {
        "3"
    } else if d == 4 {
        "4"
    } else if d == 5 {
        "5"
    } else if d == 6 {
        "6"
    } else if d == 7 {
        "7"
    } else if d == 8 {
        "8"
    } else {
        "9"
    };
    proof {
        reveal_strlit("0");
        reveal_strlit("1");
        reveal_strlit("2");
        reveal_strlit("3");
        reveal_strlit("4");
        reveal_strlit("5");
        reveal_strlit("6");
        reveal_strlit("7");
        reveal_strlit("8");
        reveal_strlit("9");
        assert(r@ =~= seq![digit_char(d as nat)]);
    }
    r
}

fn push_u64_dec(s: &mut String, n: u64)
    ensures
        final(s)@ == old(s)@ + dec_str(n as nat),
    decreases n,
{
    if n < 10 {
        s.append(digit_str(n));
        proof {
            assert(s@ =~= old(s)@ + dec_str(n as nat));
        }
    } else {
        push_u64_dec(s, n / 10);
        s.append(digit_str(n % 10));
        proof {
            assert(s@ =~= old(s)@ + dec_str(n as nat));
        }
    }
}

fn push_frac6(s: &mut String, n: u64)
    ensures
        final(s)@ == old(s)@ + frac6_str(n as nat),
{
    s.append(digit_str((n / 100_000) % 10));
    s.append(digit_str((n / 10_000) % 10));
    s.append(digit_str((n / 1_000) % 10));
    s.append(digit_str((n / 100) % 10));
    s.append(digit_str((n / 10) % 10));
    s.append(digit_str(n % 10));
    proof {
        assert(s@ =~= old(s)@ + frac6_str(n as nat));
    }
}

fn push_coeff(s: &mut String, v: i64)
    ensures
        final(s)@ == old(s)@ + coeff_str(v),
{
    let a: u64 = if v < 0 {
        s.append("-");
        (-(v as i128)) as u64
    } else {
        v as u64
    };
    proof {
        assert(a as nat == coeff_abs(v));
    }
    push_u64_dec(s, a / 1_000_000);
    s.append(".");
    push_frac6(s, a % 1_000_000);
    proof {
        assert(s@ =~= old(s)@ + coeff_str(v));
    }
}

/// The GLSL expression a tree denotes.  The expression is closed except for
/// the scalars `x`, `y`, `t` and the shaping functions `well_fn` and
/// `tent_fn`, all supplied by the surrounding shader template, and evaluates
/// on a GLSL runtime to the same color the numeric interpreter computes.
pub open spec fn glsl_of(op: Operation) -> Seq<char>
    decreases op,
{
    match op {
        Operation::Sum(a, b) => "(("@ + glsl_of(*a) + ") + ("@ + glsl_of(*b) + "))"@,
        Operation::Product(a, b) => "("@ + glsl_of(*a) + " * "@ + glsl_of(*b) + ")"@,
        Operation::Mod(a, b) => "mod("@ + glsl_of(*a) + ", "@ + glsl_of(*b) + ")"@,
        Operation::Constant(v) => "vec3("@ + coeff_str(v) + ", "@ + coeff_str(v) + ", "@
            + coeff_str(v) + ")"@,
        Operation::VarX => "vec3(x,x,x)"@,
        Operation::VarY => "vec3(y,y,y)"@,
        Operation::VarT => "vec3(t,t,t)"@,
        Operation::Circle(cx, cy) => "vec3(distance(vec2(x, y), vec2("@ + coeff_str(cx) + ", "@
            + coeff_str(cy) + ")))"@,
        Operation::Sine(a) => "sin("@ + glsl_of(*a) + ")"@,
        Operation::Inverse(a) => "(vec3(0.0, 0.0, 0.0) - "@ + glsl_of(*a) + ")"@,
        Operation::PerChannelMask(m, a, b, thr) => "vec3(("@ + glsl_of(*m) + ".x > "@ + coeff_str(
            thr,
        ) + " ? "@ + glsl_of(*a) + ".x : "@ + glsl_of(*b) + ".x), ("@ + glsl_of(*m) + ".y > "@
            + coeff_str(thr) + " ? "@ + glsl_of(*a) + ".y : "@ + glsl_of(*b) + ".y), ("@ + glsl_of(
            *m,
        ) + ".z > "@ + coeff_str(thr) + " ? "@ + glsl_of(*a) + ".z : "@ + glsl_of(*b) + ".z))"@,
        Operation::BinaryMask(m, a, b, thr) => "(length("@ + glsl_of(*m) + ") > "@ + coeff_str(thr)
            + " ? "@ + glsl_of(*a) + " : "@ + glsl_of(*b) + ")"@,
        Operation::SmoothMix(w, a, b) => "((length("@ + glsl_of(*w) + ") * "@ + glsl_of(*a)
            + ") + ((1.0 - length("@ + glsl_of(*w) + ")) * "@ + glsl_of(*b) + "))"@,
        Operation::Well(a) => "vec3(well_fn("@ + glsl_of(*a) + ".x), well_fn("@ + glsl_of(*a)
            + ".y), well_fn("@ + glsl_of(*a) + ".z))"@,
        Operation::Tent(a) => "vec3(tent_fn("@ + glsl_of(*a) + ".x), tent_fn("@ + glsl_of(*a)
            + ".y), tent_fn("@ + glsl_of(*a) + ".z))"@,
        Operation::RGB(r, g, b) => "vec3("@ + glsl_of(*r) + ".x, "@ + glsl_of(*g) + ".y, "@
            + glsl_of(*b) + ".z)"@,
    }
}

/// The human-readable rendering of a tree, as infix arithmetic and named
/// calls.
pub open spec fn text_of(op: Operation) -> Seq<char>
    decreases op,
{
    match op {
        Operation::Sum(a, b) => "("@ + text_of(*a) + " + "@ + text_of(*b) + ")"@,
        Operation::Product(a, b) => "("@ + text_of(*a) + " * "@ + text_of(*b) + ")"@,
        Operation::Mod(a, b) => "("@ + text_of(*a) + " % "@ + text_of(*b) + ")"@,
        Operation::Constant(v) => coeff_str(v),
        Operation::VarX => "x"@,
        Operation::VarY => "y"@,
        Operation::VarT => "t"@,
        Operation::Circle(cx, cy) => "circle("@ + coeff_str(cx) + ", "@ + coeff_str(cy) + ")"@,
        Operation::Sine(a) => "sin("@ + text_of(*a) + ")"@,
        Operation::Inverse(a) => "-"@ + text_of(*a),
        Operation::PerChannelMask(m, a, b, thr) => "per_channel_mask("@ + text_of(*m) + ", "@
            + text_of(*a) + ", "@ + text_of(*b) + ", "@ + coeff_str(thr) + ")"@,
        Operation::BinaryMask(m, a, b, thr) => "binary_mask("@ + text_of(*m) + ", "@ + text_of(*a)
            + ", "@ + text_of(*b) + ", "@ + coeff_str(thr) + ")"@,
        Operation::SmoothMix(w, a, b) => "smooth_mix("@ + text_of(*w) + ", "@ + text_of(*a) + ", "@
            + text_of(*b) + ")"@,
        Operation::Well(a) => "well("@ + text_of(*a) + ")"@,
        Operation::Tent(a) => "tent("@ + text_of(*a) + ")"@,
        Operation::RGB(r, g, b) => "rgb("@ + text_of(*r) + ", "@ + text_of(*g) + ", "@ + text_of(
            *b,
        ) + ")"@,
    }
}

impl Operation {
    /// Render the tree for humans.
    pub fn to_text(&self) -> (r: String)
        ensures
            r@ == text_of(*self),
        decreases *self,
    {
        let mut s = String::new();
        match self {
            Operation::Sum(a, b) => {
                let sa = a.to_text();
                let sb = b.to_text();
                s.append("(");
                s.append(sa.as_str());
                s.append(" + ");
                s.append(sb.as_str());
                s.append(")");
            },
            Operation::Product(a, b) => {
                let sa = a.to_text();
                let sb = b.to_text();
                s.append("(");
                s.append(sa.as_str());
                s.append(" * ");
                s.append(sb.as_str());
                s.append(")");
            },
            Operation::Mod(a, b) => {
                let sa = a.to_text();
                let sb = b.to_text();
                s.append("(");
                s.append(sa.as_str());
                s.append(" % ");
                s.append(sb.as_str());
                s.append(")");
            },
            Operation::Constant(v) => {
                push_coeff(&mut s, *v);
            },
            Operation::VarX => {
                s.append("x");
            },
            Operation::VarY => {
                s.append("y");
            },
            Operation::VarT => {
                s.append("t");
            },
            Operation::Circle(cx, cy) => {
                s.append("circle(");
                push_coeff(&mut s, *cx);
                s.append(", ");
                push_coeff(&mut s, *cy);
                s.append(")");
            },
            Operation::Sine(a) => {
                let sa = a.to_text();
                s.append("sin(");
                s.append(sa.as_str());
                s.append(")");
            },
            Operation::Inverse(a) => {
                let sa = a.to_text();
                s.append("-");
                s.append(sa.as_str());
            },
            Operation::PerChannelMask(m, a, b, thr) => {
                let sm = m.to_text();
                let sa = a.to_text();
                let sb = b.to_text();
                s.append("per_channel_mask(");
                s.append(sm.as_str());
                s.append(", ");
                s.append(sa.as_str());
                s.append(", ");
                s.append(sb.as_str());
                s.append(", ");
                push_coeff(&mut s, *thr);
                s.append(")");
            },
            Operation::BinaryMask(m, a, b, thr) => {
                let sm = m.to_text();
                let sa = a.to_text();
                let sb = b.to_text();
                s.append("binary_mask(");
                s.append(sm.as_str());
                s.append(", ");
                s.append(sa.as_str());
                s.append(", ");
                s.append(sb.as_str());
                s.append(", ");
                push_coeff(&mut s, *thr);
                s.append(")");
            },
            Operation::SmoothMix(w, a, b) => {
                let sw = w.to_text();
                let sa = a.to_text();
                let sb = b.to_text();
                s.append("smooth_mix(");
                s.append(sw.as_str());
                s.append(", ");
                s.append(sa.as_str());
                s.append(", ");
                s.append(sb.as_str());
                s.append(")");
            },
            Operation::Well(a) => {
                let sa = a.to_text();
                s.append("well(");
                s.append(sa.as_str());
                s.append(")");
            },
            Operation::Tent(a) => {
                let sa = a.to_text();
                s.append("tent(");
                s.append(sa.as_str());
                s.append(")");
            },
            Operation::RGB(r, g, b) => {
                let sr = r.to_text();
                let sg = g.to_text();
                let sb = b.to_text();
                s.append("rgb(");
                s.append(sr.as_str());
                s.append(", ");
                s.append(sg.as_str());
                s.append(", ");
                s.append(sb.as_str());
                s.append(")");
            },
        }
        proof {
            assert(s@ =~= text_of(*self));
        }
        s
    }

    /// Translate the tree once into an equivalent GLSL expression.
    pub fn to_glsl(&self) -> (r: String)
        ensures
            r@ == glsl_of(*self),
        decreases *self,
    {
        let mut s = String::new();
        match self {
            Operation::Sum(a, b) => {
                let sa = a.to_glsl();
                let sb = b.to_glsl();
                s.append("((");
                s.append(sa.as_str());
                s.append(") + (");
                s.append(sb.as_str());
                s.append("))");
            },
            Operation::Product(a, b) => {
                let sa = a.to_glsl();
                let sb = b.to_glsl();
                s.append("(");
                s.append(sa.as_str());
                s.append(" * ");
                s.append(sb.as_str());
                s.append(")");
            },
            Operation::Mod(a, b) => {
                let sa = a.to_glsl();
                let sb = b.to_glsl();
                s.append("mod(");
                s.append(sa.as_str());
                s.append(", ");
                s.append(sb.as_str());
                s.append(")");
            },
            Operation::Constant(v) => {
                s.append("vec3(");
                push_coeff(&mut s, *v);
                s.append(", ");
                push_coeff(&mut s, *v);
                s.append(", ");
                push_coeff(&mut s, *v);
                s.append(")");
            },
            Operation::VarX => {
                s.append("vec3(x,x,x)");
            },
            Operation::VarY => {
                s.append("vec3(y,y,y)");
            },
            Operation::VarT => {
                s.append("vec3(t,t,t)");
            },
            Operation::Circle(cx, cy) => {
                s.append("vec3(distance(vec2(x, y), vec2(");
                push_coeff(&mut s, *cx);
                s.append(", ");
                push_coeff(&mut s, *cy);
                s.append(")))");
            },
            Operation::Sine(a) => {
                let sa = a.to_glsl();
                s.append("sin(");
                s.append(sa.as_str());
                s.append(")");
            },
            Operation::Inverse(a) => {
                let sa = a.to_glsl();
                s.append("(vec3(0.0, 0.0, 0.0) - ");
                s.append(sa.as_str());
                s.append(")");
            },
            Operation::PerChannelMask(m, a, b, thr) => {
                let sm = m.to_glsl();
                let sa = a.to_glsl();
                let sb = b.to_glsl();
                s.append("vec3((");
                s.append(sm.as_str());
                s.append(".x > ");
                push_coeff(&mut s, *thr);
                s.append(" ? ");
                s.append(sa.as_str());
                s.append(".x : ");
                s.append(sb.as_str());
                s.append(".x), (");
                s.append(sm.as_str());
                s.append(".y > ");
                push_coeff(&mut s, *thr);
                s.append(" ? ");
                s.append(sa.as_str());
                s.append(".y : ");
                s.append(sb.as_str());
                s.append(".y), (");
                s.append(sm.as_str());
                s.append(".z > ");
                push_coeff(&mut s, *thr);
                s.append(" ? ");
                s.append(sa.as_str());
                s.append(".z : ");
                s.append(sb.as_str());
                s.append(".z))");
            },
            Operation::BinaryMask(m, a, b, thr) => {
                let sm = m.to_glsl();
                let sa = a.to_glsl();
                let sb = b.to_glsl();
                s.append("(length(");
                s.append(sm.as_str());
                s.append(") > ");
                push_coeff(&mut s, *thr);
                s.append(" ? ");
                s.append(sa.as_str());
                s.append(" : ");
                s.append(sb.as_str());
                s.append(")");
            },
            Operation::SmoothMix(w, a, b) => {
                let sw = w.to_glsl();
                let sa = a.to_glsl();
                let sb = b.to_glsl();
                s.append("((length(");
                s.append(sw.as_str());
                s.append(") * ");
                s.append(sa.as_str());
                s.append(") + ((1.0 - length(");
                s.append(sw.as_str());
                s.append(")) * ");
                s.append(sb.as_str());
                s.append("))");
            },
            Operation::Well(a) => {
                let sa = a.to_glsl();
                s.append("vec3(well_fn(");
                s.append(sa.as_str());
                s.append(".x), well_fn(");
                s.append(sa.as_str());
                s.append(".y), well_fn(");
                s.append(sa.as_str());
                s.append(".z))");
            },
            Operation::Tent(a) => {
                let sa = a.to_glsl();
                s.append("vec3(tent_fn(");
                s.append(sa.as_str());
                s.append(".x), tent_fn(");
                s.append(sa.as_str());
                s.append(".y), tent_fn(");
                s.append(sa.as_str());
                s.append(".z))");
            },
            Operation::RGB(r, g, b) => {
                let sr = r.to_glsl();
                let sg = g.to_glsl();
                let sb = b.to_glsl();
                s.append("vec3(");
                s.append(sr.as_str());
                s.append(".x, ");
                s.append(sg.as_str());
                s.append(".y, ");
                s.append(sb.as_str());
                s.append(".z)");
            },
        }
        proof {
            assert(s@ =~= glsl_of(*self));
        }
        s
    }
}

} // verus!

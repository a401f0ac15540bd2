//! Four-by-four matrices that map the world to the screen.

use std::ops::{Add, Div, Neg, Sub};
use vstd::prelude::*;
use vstd::std_specs::ops::{AddSpec, DivSpec, NegSpec, SubSpec};

verus! {

/// A four-by-four matrix over numbers of type `S`, row by row.
#[derive(Clone, Copy, Debug)]
pub struct ScreenTransformation<S>(pub [S; 16]);

/// `a + b` as the number type defines it.
pub open spec fn sum<S: Add<S, Output = S>>(a: S, b: S) -> S {
    a.add_spec(b)
}

/// `a - b` as the number type defines it.
pub open spec fn difference<S: Sub<S, Output = S>>(a: S, b: S) -> S {
    a.sub_spec(b)
}

/// `a / b` as the number type defines it.
pub open spec fn quotient<S: Div<S, Output = S>>(a: S, b: S) -> S {
    a.div_spec(b)
}

/// `-a` as the number type defines it.
pub open spec fn negated<S: Neg<Output = S>>(a: S) -> S {
    a.neg_spec()
}

/// `-((hi + lo) / (hi - lo))`: where the middle between `lo` and `hi`
/// lands when the span between them is scaled to two and centred.
pub open spec fn offset<S>(hi: S, lo: S) -> S where
    S: Add<S, Output = S> + Sub<S, Output = S> + Div<S, Output = S> + Neg<Output = S>,
 {
    negated(quotient(sum(hi, lo), difference(hi, lo)))
}

/// Whether the number type lets `offset(hi, lo)` be worked out.
pub open spec fn offset_defined<S>(hi: S, lo: S) -> bool where
    S: Add<S, Output = S> + Sub<S, Output = S> + Div<S, Output = S> + Neg<Output = S>,
 {
    &&& hi.add_req(lo)
    &&& hi.sub_req(lo)
    &&& sum(hi, lo).div_req(difference(hi, lo))
    &&& quotient(sum(hi, lo), difference(hi, lo)).neg_req()
}

/// Whether the arithmetic of the number type is specified at all.
pub open spec fn arithmetic_specified<S>() -> bool where
    S: Add<S, Output = S> + Sub<S, Output = S> + Div<S, Output = S> + Neg<Output = S>,
 {
    &&& <S as AddSpec<S>>::obeys_add_spec()
    &&& <S as SubSpec<S>>::obeys_sub_spec()
    &&& <S as DivSpec<S>>::obeys_div_spec()
    &&& <S as NegSpec>::obeys_neg_spec()
}

/// Whether the arithmetic of the number type takes every operand, as that
/// of floating-point numbers does.
pub open spec fn arithmetic_total<S>() -> bool where
    S: Add<S, Output = S> + Sub<S, Output = S> + Div<S, Output = S> + Neg<Output = S>,
 {
    &&& forall|a: S, b: S| #[trigger] a.add_req(b)
    &&& forall|a: S, b: S| #[trigger] a.sub_req(b)
    &&& forall|a: S, b: S| #[trigger] a.div_req(b)
    &&& forall|a: S| #[trigger] a.neg_req()
}

/// Whether the number type lets the orthographic projection of the given
/// box be worked out, where `one` is its unit.
pub open spec fn ortho_defined<S>(
    left: S,
    top: S,
    right: S,
    bottom: S,
    near: S,
    far: S,
    one: S,
) -> bool where
    S: Add<S, Output = S> + Sub<S, Output = S> + Div<S, Output = S> + Neg<Output = S>,
 {
    let two = sum(one, one);
    &&& offset_defined(right, left)
    &&& offset_defined(top, bottom)
    &&& offset_defined(far, near)
    &&& one.add_req(one)
    &&& two.div_req(difference(right, left))
    &&& two.div_req(difference(top, bottom))
    &&& two.neg_req()
    &&& negated(two).div_req(difference(far, near))
}

/// The orthographic projection of the given box, row by row: the
/// diagonal scales each span to two (the depth span to minus two), and the
/// last row moves the middle of the box to the origin.
pub open spec fn spec_ortho<S>(
    left: S,
    top: S,
    right: S,
    bottom: S,
    near: S,
    far: S,
    zero: S,
    one: S,
) -> Seq<S> where
    S: Add<S, Output = S> + Sub<S, Output = S> + Div<S, Output = S> + Neg<Output = S>,
 {
    let two = sum(one, one);
    seq![
        quotient(two, difference(right, left)),
        zero,
        zero,
        zero,
        zero,
        quotient(two, difference(top, bottom)),
        zero,
        zero,
        zero,
        zero,
        quotient(negated(two), difference(far, near)),
        zero,
        offset(right, left),
        offset(top, bottom),
        offset(far, near),
        one,
    ]
}

/// The identity, row by row: `one` on the diagonal and `zero` elsewhere.
pub open spec fn spec_identity<S>(zero: S, one: S) -> Seq<S> {
    Seq::new(
        16,
        |i: int|
            if i % 5 == 0 {
                one
            } else {
                zero
            },
    )
}

impl<S> ScreenTransformation<S> where
    S: Add<S, Output = S> + Sub<S, Output = S> + Div<S, Output = S> + Neg<Output = S> + Copy,
 {
    /// The orthographic projection that maps the box between `left` and
    /// `right`, `top` and `bottom`, `near` and `far` to the cube between
    /// minus one and one. `zero` and `one` are the zero and the unit of the
    /// number type.
    pub fn ortho(left: S, top: S, right: S, bottom: S, near: S, far: S, zero: S, one: S) -> (out:
        Self)
        requires
            arithmetic_total::<S>() || (arithmetic_specified::<S>() && ortho_defined(
                left,
                top,
                right,
                bottom,
                near,
                far,
                one,
            )),
        ensures
            arithmetic_specified::<S>() ==> out.0@ == spec_ortho(
                left,
                top,
                right,
                bottom,
                near,
                far,
                zero,
                one,
            ),
    {
        let tx = right.add(left).div(right.sub(left)).neg();
        let ty = top.add(bottom).div(top.sub(bottom)).neg();
        let tz = far.add(near).div(far.sub(near)).neg();

        let two = one.add(one);
        let out = Self(
            [
                // Row one
                two.div(right.sub(left)),
                zero,
                zero,
                zero,
                // Row two
                zero,
                two.div(top.sub(bottom)),
                zero,
                zero,
                // Row three
                zero,
                zero,
                two.neg().div(far.sub(near)),
                zero,
                // Row four
                tx,
                ty,
                tz,
                one,
            ],
        );
        assert(arithmetic_specified::<S>() ==> out.0@ =~= spec_ortho(
            left,
            top,
            right,
            bottom,
            near,
            far,
            zero,
            one,
        ));
        out
    }
}

impl<S: Copy> ScreenTransformation<S> {
    /// The transformation that leaves everything where it is. `zero` and
    /// `one` are the zero and the unit of the number type.
    pub fn identity(zero: S, one: S) -> (out: Self)
        ensures
            out.0@ == spec_identity(zero, one),
    {
        let out = Self(
            [
                one,
                zero,
                zero,
                zero,
                zero,
                one,
                zero,
                zero,
                zero,
                zero,
                one,
                zero,
                zero,
                zero,
                zero,
                one,
            ],
        );
        assert(out.0@ =~= spec_identity(zero, one));
        out
    }
}

impl<S> ScreenTransformation<S> {
    /// The sixteen numbers of the matrix, row by row.
    pub fn to_array(self) -> (array: [S; 16])
        ensures
            array == self.0,
    {
        self.0
    }
}

} // verus!

//! Shape-typed tensors on top of a lazily acquired GPU compute backend.

use std::marker::PhantomData;
use std::ops::Add;
use vstd::prelude::*;

pub mod back;

use self::back::Handle;

verus! {

/// A dense matrix whose dimensions are part of its type.
pub struct Matrix<T, const ROWS: usize, const COLS: usize> {
    _p: PhantomData<T>,
}

impl<T, const ROWS: usize, const COLS: usize> Matrix<T, ROWS, COLS> {
    /// The matrix whose every entry is zero.
    pub closed spec fn zero() -> Self {
        Matrix { _p: PhantomData }
    }

    pub fn zeros() -> (m: Self)
        ensures
            m == Self::zero(),
    {
        Self { _p: PhantomData }
    }
}

impl<T, const ROWS: usize, const COMMON: usize, const COLS: usize> Add<Matrix<T, COMMON, COLS>> for Matrix<T, ROWS, COMMON> {
    type Output = Matrix<T, ROWS, COLS>;

    fn add(self, rhs: Matrix<T, COMMON, COLS>) -> (sum: Self::Output) {
        Matrix::zeros()
    }
}

impl<T, const ROWS: usize, const COMMON: usize, const COLS: usize> vstd::std_specs::ops::AddSpecImpl<Matrix<T, COMMON, COLS>> for Matrix<T, ROWS, COMMON> {
    open spec fn obeys_add_spec() -> bool {
        true
    }

    open spec fn add_req(self, rhs: Matrix<T, COMMON, COLS>) -> bool {
        true
    }

    open spec fn add_spec(self, rhs: Matrix<T, COMMON, COLS>) -> Matrix<T, ROWS, COLS> {
        Matrix::zero()
    }
}

/// A tensor with `LVL` axes, stored by the backend.
pub struct Tensor<T, const LVL: usize> {
    shape: Shape<LVL>,
    handle: Handle,
    _p: PhantomData<T>,
}

impl<T, const LVL: usize> View for Tensor<T, LVL> {
    type V = Seq<usize>;

    /// The extent of the tensor along each axis.
    closed spec fn view(&self) -> Seq<usize> {
        self.shape.dimensions@
    }
}

impl<T> Tensor<T, 0> {
    /// A tensor of the given extents whose storage is yet to be filled.
    pub fn empty<const LVL: usize>(dimensions: [usize; LVL]) -> (tensor: Tensor<T, LVL>)
        ensures
            tensor@ == dimensions@,
    {
        Tensor { shape: Shape::new(dimensions), handle: Handle, _p: PhantomData }
    }
}

impl<T, const LVL: usize> Tensor<T, LVL> {
    /// The extent of the tensor along each axis.
    pub fn shape(&self) -> (shape: &Shape<LVL>)
        ensures
            shape.dimensions@ == self@,
    {
        &self.shape
    }
}

/// The extent of a tensor along each of its `LVL` axes.
#[derive(Clone, Copy, Debug, PartialEq, Eq)]
pub struct Shape<const LVL: usize> {
    pub dimensions: [usize; LVL],
}

impl<const LVL: usize> Shape<LVL> {
    pub fn new(dimensions: [usize; LVL]) -> (shape: Self)
        ensures
            shape.dimensions == dimensions,
    {
        Self { dimensions }
    }
}

impl<const LVL: usize> From<[usize; LVL]> for Shape<LVL> {
    fn from(value: [usize; LVL]) -> (shape: Self) {
        Self::new(value)
    }
}

impl<const LVL: usize> vstd::std_specs::convert::FromSpecImpl<[usize; LVL]> for Shape<LVL> {
    open spec fn obeys_from_spec() -> bool {
        true
    }

    open spec fn from_spec(value: [usize; LVL]) -> Self {
        Shape { dimensions: value }
    }
}

} // verus!

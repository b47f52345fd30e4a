//! Element-wise arithmetic on tensors: which kernel runs, on which operands.
//!
//! Each operation has two kernels. The in-place kernel writes the result into
//! the buffer of its first operand; the other one allocates a new buffer. The
//! functions here choose between them from the shapes of the operands and from
//! who else uses their buffers, and describe the launch. Running the kernel on
//! the device is left to the caller.

use core::marker::PhantomData;
use vstd::layout::size_of;
use vstd::prelude::*;

verus! {

/// A tensor of element type `E` and rank `D`, as far as dispatch is concerned.
pub struct WgpuTensor<E, const D: usize> {
    /// Identifies the device buffer that holds the elements.
    pub handle: u64,
    /// The extent of each dimension.
    pub shape: [usize; D],
    /// Whether this tensor is the only user of its buffer, so that a kernel may
    /// overwrite the buffer.
    pub exclusive: bool,
    pub elem: PhantomData<E>,
}

/// The kernels that combine two tensors element by element.
#[derive(Clone, Copy, Debug, PartialEq, Eq, Structural)]
pub enum BinaryKernel {
    Add,
    AddInplace,
    Sub,
    SubInplace,
    Mul,
    MulInplace,
    Div,
    DivInplace,
}

/// The kernels that combine every element of a tensor with one scalar.
#[derive(Clone, Copy, Debug, PartialEq, Eq, Structural)]
pub enum ScalarKernel {
    AddScalar,
    AddScalarInplace,
    SubScalar,
    SubScalarInplace,
    MulScalar,
    MulScalarInplace,
    DivScalar,
    DivScalarInplace,
}

/// One launch of a binary kernel: it computes `lhs op rhs` with broadcasting.
/// An in-place kernel writes the result into the buffer of `lhs`.
pub struct BinaryElemwise<E, const D: usize> {
    pub kernel: BinaryKernel,
    pub lhs: WgpuTensor<E, D>,
    pub rhs: WgpuTensor<E, D>,
}

/// One launch of a scalar kernel: it computes `lhs op rhs` for every element of
/// `lhs`. An in-place kernel writes the result into the buffer of `lhs`.
pub struct UnaryScalar<E, const D: usize> {
    pub kernel: ScalarKernel,
    pub lhs: WgpuTensor<E, D>,
    pub rhs: E,
}

impl BinaryKernel {
    /// Whether the kernel writes into the buffer of its first operand.
    pub open spec fn spec_is_inplace(self) -> bool {
        self == BinaryKernel::AddInplace || self == BinaryKernel::SubInplace || self
            == BinaryKernel::MulInplace || self == BinaryKernel::DivInplace
    }

    /// Whether the kernel writes into the buffer of its first operand.
    #[verifier::when_used_as_spec(spec_is_inplace)]
    pub fn is_inplace(self) -> (yes: bool)
        ensures
            yes == self.spec_is_inplace(),
    {
        match self {
            BinaryKernel::AddInplace
            | BinaryKernel::SubInplace
            | BinaryKernel::MulInplace
            | BinaryKernel::DivInplace => true,
            BinaryKernel::Add | BinaryKernel::Sub | BinaryKernel::Mul | BinaryKernel::Div => false,
        }
    }
}

impl ScalarKernel {
    /// Whether the kernel writes into the buffer of its tensor operand.
    pub open spec fn spec_is_inplace(self) -> bool {
        self == ScalarKernel::AddScalarInplace || self == ScalarKernel::SubScalarInplace || self
            == ScalarKernel::MulScalarInplace || self == ScalarKernel::DivScalarInplace
    }

    /// Whether the kernel writes into the buffer of its tensor operand.
    #[verifier::when_used_as_spec(spec_is_inplace)]
    pub fn is_inplace(self) -> (yes: bool)
        ensures
            yes == self.spec_is_inplace(),
    {
        match self {
            ScalarKernel::AddScalarInplace
            | ScalarKernel::SubScalarInplace
            | ScalarKernel::MulScalarInplace
            | ScalarKernel::DivScalarInplace => true,
            ScalarKernel::AddScalar
            | ScalarKernel::SubScalar
            | ScalarKernel::MulScalar
            | ScalarKernel::DivScalar => false,
        }
    }
}

/// The shape of `lhs op rhs`: in every dimension the larger of the two extents.
pub open spec fn broadcast_shape(lhs: Seq<usize>, rhs: Seq<usize>) -> Seq<usize> {
    Seq::new(lhs.len(), |i: int| if lhs[i] >= rhs[i] { lhs[i] } else { rhs[i] })
}

/// `shape` is at least as large as `other` in every dimension.
pub open spec fn covers(shape: Seq<usize>, other: Seq<usize>) -> bool {
    forall|i: int| 0 <= i < shape.len() ==> shape[i] >= other[i]
}

impl<E, const D: usize> WgpuTensor<E, D> {
    /// A tensor of the given shape in the buffer `handle`.
    pub fn new(handle: u64, shape: [usize; D], exclusive: bool) -> (tensor: Self)
        ensures
            tensor.handle == handle,
            tensor.shape == shape,
            tensor.exclusive == exclusive,
    {
        WgpuTensor { handle, shape, exclusive, elem: PhantomData }
    }

    /// Whether the result of an operation with `other` can be written into this
    /// tensor's buffer: the buffer may be overwritten, and broadcasting does not
    /// make the result larger than this tensor.
    pub open spec fn spec_can_mut_broadcast(&self, other: &WgpuTensor<E, D>) -> bool {
        self.exclusive && covers(self.shape@, other.shape@)
    }

    /// Whether the tensor's buffer may be overwritten.
    pub fn can_mut(&self) -> (yes: bool)
        ensures
            yes == self.exclusive,
    {
        self.exclusive
    }

    /// Whether the result of an operation with `tensor_other` can be written
    /// into this tensor's buffer.
    pub fn can_mut_broadcast(&self, tensor_other: &WgpuTensor<E, D>) -> (yes: bool)
        ensures
            yes == self.spec_can_mut_broadcast(tensor_other),
    {
        if !self.exclusive {
            return false;
        }
        let mut i: usize = 0;
        while i < D
            invariant
                i <= D,
                forall|j: int| 0 <= j < i ==> self.shape@[j] >= tensor_other.shape@[j],
            decreases D - i,
        {
            // The result would be larger than this tensor.
            if self.shape[i] < tensor_other.shape[i] {
                return false;
            }
            i += 1;
        }
        true
    }
}

impl<E, const D: usize> BinaryElemwise<E, D> {
    /// The shape of the result.
    pub open spec fn spec_shape_out(&self) -> Seq<usize> {
        broadcast_shape(self.lhs.shape@, self.rhs.shape@)
    }

    /// An in-place kernel may write where the launch tells it to: the buffer of
    /// the first operand belongs to that operand alone, and the result has
    /// exactly that operand's shape.
    pub open spec fn inplace_is_sound(&self) -> bool {
        self.kernel.is_inplace() ==> self.lhs.exclusive && self.spec_shape_out()
            == self.lhs.shape@
    }

    /// The shape of the result.
    pub fn shape_out(&self) -> (shape: [usize; D])
        ensures
            shape@ == self.spec_shape_out(),
    {
        let mut shape = self.lhs.shape;
        let mut i: usize = 0;
        while i < D
            invariant
                i <= D,
                forall|j: int| 0 <= j < i ==> shape@[j] == self.spec_shape_out()[j],
                forall|j: int| i <= j < D ==> shape@[j] == self.lhs.shape@[j],
            decreases D - i,
        {
            if self.rhs.shape[i] > shape[i] {
                shape[i] = self.rhs.shape[i];
            }
            i += 1;
        }
        shape
    }
}

/// The number of elements of a tensor of the given shape: the product of its extents.
pub open spec fn num_elements(shape: Seq<usize>) -> nat
    decreases shape.len(),
{
    if shape.len() == 0 {
        1
    } else {
        num_elements(shape.drop_last()) * (shape.last() as nat)
    }
}

/// Taking one more dimension into account multiplies the count by its extent.
proof fn lemma_num_elements_step(shape: Seq<usize>, i: int)
    requires
        0 <= i < shape.len(),
    ensures
        num_elements(shape.take(i + 1)) == num_elements(shape.take(i)) * shape[i],
{
    assert(shape.take(i + 1).drop_last() =~= shape.take(i));
}

/// A tensor with an empty dimension has no elements.
proof fn lemma_num_elements_with_zero(shape: Seq<usize>, i: int)
    requires
        0 <= i < shape.len(),
        shape[i] == 0,
    ensures
        num_elements(shape) == 0,
    decreases shape.len(),
{
    let count = num_elements(shape.drop_last());
    let extent = shape.last() as nat;
    if i < shape.len() - 1 {
        lemma_num_elements_with_zero(shape.drop_last(), i);
    }
    assert(count * extent == 0) by (nonlinear_arith)
        requires
            count == 0 || extent == 0,
    ;
}

/// Without an empty dimension, the count over the first dimensions is at
/// least one and never exceeds the count over all of them.
proof fn lemma_num_elements_grows(shape: Seq<usize>, i: int)
    requires
        0 <= i <= shape.len(),
        forall|j: int| 0 <= j < shape.len() ==> shape[j] >= 1,
    ensures
        1 <= num_elements(shape.take(i)) <= num_elements(shape),
    decreases shape.len() - i,
{
    if i == shape.len() {
        assert(shape.take(i) =~= shape);
        lemma_num_elements_positive(shape);
    } else {
        lemma_num_elements_step(shape, i);
        lemma_num_elements_grows(shape, i + 1);
        let count = num_elements(shape.take(i));
        let extent = shape[i] as nat;
        assert(count >= 1 && count <= count * extent) by (nonlinear_arith)
            requires
                count * extent >= 1,
                extent >= 1,
        ;
    }
}

/// Without an empty dimension there is at least one element.
proof fn lemma_num_elements_positive(shape: Seq<usize>)
    requires
        forall|j: int| 0 <= j < shape.len() ==> shape[j] >= 1,
    ensures
        num_elements(shape) >= 1,
    decreases shape.len(),
{
    if shape.len() > 0 {
        lemma_num_elements_positive(shape.drop_last());
        let count = num_elements(shape.drop_last());
        let extent = shape.last() as nat;
        assert(count * extent >= 1) by (nonlinear_arith)
            requires
                count >= 1,
                extent >= 1,
        ;
    }
}

/// The size in bytes of the buffer that a new tensor of the given shape needs:
/// one element of type `E` for each position. `None` if the size is more than
/// a `usize` holds.
pub fn empty_device<E, const D: usize>(shape: [usize; D]) -> (size: Option<usize>)
    ensures
        match size {
            Some(bytes) => bytes == num_elements(shape@) * size_of::<E>(),
            None => num_elements(shape@) * size_of::<E>() > usize::MAX,
        },
{
    let elem_size = core::mem::size_of::<E>();
    if elem_size == 0 {
        assert(num_elements(shape@) * 0 == 0);
        return Some(0);
    }
    // An empty dimension makes the tensor empty, however large the others are.
    let mut i: usize = 0;
    while i < D
        invariant
            i <= D,
            forall|j: int| 0 <= j < i ==> shape@[j] >= 1,
        decreases D - i,
    {
        if shape[i] == 0 {
            proof {
                lemma_num_elements_with_zero(shape@, i as int);
                assert(0 * size_of::<E>() == 0);
            }
            return Some(0);
        }
        i += 1;
    }

    let mut total: usize = 1;
    let mut i: usize = 0;
    while i < D
        invariant
            i <= D,
            elem_size >= 1,
            elem_size == size_of::<E>(),
            forall|j: int| 0 <= j < D ==> shape@[j] >= 1,
            total == num_elements(shape@.take(i as int)),
        decreases D - i,
    {
        proof {
            lemma_num_elements_step(shape@, i as int);
            lemma_num_elements_grows(shape@, i + 1);
        }
        match total.checked_mul(shape[i]) {
            Some(product) => {
                total = product;
            },
            None => {
                let ghost count = num_elements(shape@);
                let ghost size = size_of::<E>();
                assert(count * size > usize::MAX) by (nonlinear_arith)
                    requires
                        count > usize::MAX,
                        size >= 1,
                ;
                return None;
            },
        }
        i += 1;
    }
    assert(shape@.take(D as int) =~= shape@);
    total.checked_mul(elem_size)
}

/// The launch of an operation whose operands may change places: in place on
/// `lhs` if possible, else in place on `rhs` with the operands exchanged, else
/// into a new buffer.
pub open spec fn commutative_launch<E, const D: usize>(
    inplace: BinaryKernel,
    allocating: BinaryKernel,
    lhs: WgpuTensor<E, D>,
    rhs: WgpuTensor<E, D>,
) -> BinaryElemwise<E, D> {
    if lhs.spec_can_mut_broadcast(&rhs) {
        BinaryElemwise { kernel: inplace, lhs, rhs }
    } else if rhs.spec_can_mut_broadcast(&lhs) {
        BinaryElemwise { kernel: inplace, lhs: rhs, rhs: lhs }
    } else {
        BinaryElemwise { kernel: allocating, lhs, rhs }
    }
}

/// The launch of an operation whose operands keep their places: in place on
/// `lhs` if possible, else into a new buffer.
pub open spec fn ordered_launch<E, const D: usize>(
    inplace: BinaryKernel,
    allocating: BinaryKernel,
    lhs: WgpuTensor<E, D>,
    rhs: WgpuTensor<E, D>,
) -> BinaryElemwise<E, D> {
    if lhs.spec_can_mut_broadcast(&rhs) {
        BinaryElemwise { kernel: inplace, lhs, rhs }
    } else {
        BinaryElemwise { kernel: allocating, lhs, rhs }
    }
}

/// The launch of an operation with a scalar: in place if the tensor's buffer
/// may be overwritten, else into a new buffer.
pub open spec fn scalar_launch<E, const D: usize>(
    inplace: ScalarKernel,
    allocating: ScalarKernel,
    lhs: WgpuTensor<E, D>,
    rhs: E,
) -> UnaryScalar<E, D> {
    if lhs.exclusive {
        UnaryScalar { kernel: inplace, lhs, rhs }
    } else {
        UnaryScalar { kernel: allocating, lhs, rhs }
    }
}

/// Element-wise `lhs + rhs`.
pub fn add<E, const D: usize>(lhs: WgpuTensor<E, D>, rhs: WgpuTensor<E, D>) -> (launch:
    BinaryElemwise<E, D>)
    ensures
        launch == commutative_launch(BinaryKernel::AddInplace, BinaryKernel::Add, lhs, rhs),
        launch.inplace_is_sound(),
{
    proof {
        lemma_inplace_keeps_shape(BinaryKernel::AddInplace, BinaryKernel::Add, lhs, rhs);
    }
    if lhs.can_mut_broadcast(&rhs) {
        return BinaryElemwise { kernel: BinaryKernel::AddInplace, lhs, rhs };
    }
    if rhs.can_mut_broadcast(&lhs) {
        return BinaryElemwise { kernel: BinaryKernel::AddInplace, lhs: rhs, rhs: lhs };
    }
    BinaryElemwise { kernel: BinaryKernel::Add, lhs, rhs }
}

/// `lhs + rhs` for every element of `lhs`.
pub fn add_scalar<E, const D: usize>(lhs: WgpuTensor<E, D>, rhs: E) -> (launch: UnaryScalar<E, D>)
    ensures
        launch == scalar_launch(ScalarKernel::AddScalarInplace, ScalarKernel::AddScalar, lhs, rhs),
{
    if lhs.can_mut() {
        return UnaryScalar { kernel: ScalarKernel::AddScalarInplace, lhs, rhs };
    }
    UnaryScalar { kernel: ScalarKernel::AddScalar, lhs, rhs }
}

/// Element-wise `lhs - rhs`.
pub fn sub<E, const D: usize>(lhs: WgpuTensor<E, D>, rhs: WgpuTensor<E, D>) -> (launch:
    BinaryElemwise<E, D>)
    ensures
        launch == ordered_launch(BinaryKernel::SubInplace, BinaryKernel::Sub, lhs, rhs),
        launch.inplace_is_sound(),
{
    proof {
        lemma_inplace_keeps_shape(BinaryKernel::SubInplace, BinaryKernel::Sub, lhs, rhs);
    }
    if lhs.can_mut_broadcast(&rhs) {
        return BinaryElemwise { kernel: BinaryKernel::SubInplace, lhs, rhs };
    }
    BinaryElemwise { kernel: BinaryKernel::Sub, lhs, rhs }
}

/// `lhs - rhs` for every element of `lhs`.
pub fn sub_scalar<E, const D: usize>(lhs: WgpuTensor<E, D>, rhs: E) -> (launch: UnaryScalar<E, D>)
    ensures
        launch == scalar_launch(ScalarKernel::SubScalarInplace, ScalarKernel::SubScalar, lhs, rhs),
{
    if lhs.can_mut() {
        return UnaryScalar { kernel: ScalarKernel::SubScalarInplace, lhs, rhs };
    }
    UnaryScalar { kernel: ScalarKernel::SubScalar, lhs, rhs }
}

/// Element-wise `lhs * rhs`.
pub fn mul<E, const D: usize>(lhs: WgpuTensor<E, D>, rhs: WgpuTensor<E, D>) -> (launch:
    BinaryElemwise<E, D>)
    ensures
        launch == commutative_launch(BinaryKernel::MulInplace, BinaryKernel::Mul, lhs, rhs),
        launch.inplace_is_sound(),
{
    proof {
        lemma_inplace_keeps_shape(BinaryKernel::MulInplace, BinaryKernel::Mul, lhs, rhs);
    }
    if lhs.can_mut_broadcast(&rhs) {
        return BinaryElemwise { kernel: BinaryKernel::MulInplace, lhs, rhs };
    }
    if rhs.can_mut_broadcast(&lhs) {
        return BinaryElemwise { kernel: BinaryKernel::MulInplace, lhs: rhs, rhs: lhs };
    }
    BinaryElemwise { kernel: BinaryKernel::Mul, lhs, rhs }
}

/// `lhs * rhs` for every element of `lhs`.
pub fn mul_scalar<E, const D: usize>(lhs: WgpuTensor<E, D>, rhs: E) -> (launch: UnaryScalar<E, D>)
    ensures
        launch == scalar_launch(ScalarKernel::MulScalarInplace, ScalarKernel::MulScalar, lhs, rhs),
{
    if lhs.can_mut() {
        return UnaryScalar { kernel: ScalarKernel::MulScalarInplace, lhs, rhs };
    }
    UnaryScalar { kernel: ScalarKernel::MulScalar, lhs, rhs }
}

/// Element-wise `lhs / rhs`.
pub fn div<E, const D: usize>(lhs: WgpuTensor<E, D>, rhs: WgpuTensor<E, D>) -> (launch:
    BinaryElemwise<E, D>)
    ensures
        launch == ordered_launch(BinaryKernel::DivInplace, BinaryKernel::Div, lhs, rhs),
        launch.inplace_is_sound(),
{
    proof {
        lemma_inplace_keeps_shape(BinaryKernel::DivInplace, BinaryKernel::Div, lhs, rhs);
    }
    if lhs.can_mut_broadcast(&rhs) {
        return BinaryElemwise { kernel: BinaryKernel::DivInplace, lhs, rhs };
    }
    BinaryElemwise { kernel: BinaryKernel::Div, lhs, rhs }
}

/// `lhs / rhs` for every element of `lhs`.
pub fn div_scalar<E, const D: usize>(lhs: WgpuTensor<E, D>, rhs: E) -> (launch: UnaryScalar<E, D>)
    ensures
        launch == scalar_launch(ScalarKernel::DivScalarInplace, ScalarKernel::DivScalar, lhs, rhs),
{
    if lhs.can_mut() {
        return UnaryScalar { kernel: ScalarKernel::DivScalarInplace, lhs, rhs };
    }
    UnaryScalar { kernel: ScalarKernel::DivScalar, lhs, rhs }
}

/// No launch chosen by the binary operations writes where it must not: an
/// in-place kernel is only chosen for a first operand that owns its buffer
/// and already has the shape of the result.
pub proof fn lemma_inplace_keeps_shape<E, const D: usize>(
    inplace: BinaryKernel,
    allocating: BinaryKernel,
    lhs: WgpuTensor<E, D>,
    rhs: WgpuTensor<E, D>,
)
    requires
        inplace.is_inplace(),
        !allocating.is_inplace(),
    ensures
        commutative_launch(inplace, allocating, lhs, rhs).inplace_is_sound(),
        ordered_launch(inplace, allocating, lhs, rhs).inplace_is_sound(),
{
    let swapped = commutative_launch(inplace, allocating, lhs, rhs);
    if swapped.kernel.is_inplace() {
        assert(swapped.spec_shape_out() =~= swapped.lhs.shape@);
    }
    let kept = ordered_launch(inplace, allocating, lhs, rhs);
    if kept.kernel.is_inplace() {
        assert(kept.spec_shape_out() =~= kept.lhs.shape@);
    }
}

} // verus!

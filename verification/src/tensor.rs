//! Arrays of 32-bit float bit patterns, kept in `ndarray`.
//!
//! The recogniser moves and orders floating-point numbers without computing with them, so an
//! element is the bit pattern of the number, as `f32::to_bits` gives it.
use crate::error::ModelError;
use crate::text::joined;
use vstd::prelude::*;

verus! {

/// A two-dimensional `ndarray` array.
#[verifier::external_body]
pub struct Matrix {
    array: ndarray::Array2<u32>,
}

/// A three-dimensional `ndarray` array.
#[verifier::external_body]
pub struct Tensor {
    array: ndarray::Array3<u32>,
}

/// The elements of a matrix, row after row.
pub uninterp spec fn matrix_elements(matrix: Matrix) -> Seq<u32>;

/// The numbers of rows and columns of a matrix.
pub uninterp spec fn matrix_dim(matrix: Matrix) -> (usize, usize);

/// The elements of a tensor; the last index runs fastest.
pub uninterp spec fn tensor_elements(tensor: Tensor) -> Seq<u32>;

/// The axis lengths of a tensor.
pub uninterp spec fn tensor_dim(tensor: Tensor) -> (usize, usize, usize);

/// What a matrix is: its axis lengths and its elements, row after row.
pub struct MatrixModel {
    pub dim: (usize, usize),
    pub elements: Seq<u32>,
}

/// What a tensor is: its axis lengths and its elements, the last index running fastest.
pub struct TensorModel {
    pub dim: (usize, usize, usize),
    pub elements: Seq<u32>,
}

/// The axis lengths and the elements of a tensor as plain values.
#[derive(Debug)]
pub struct TensorData {
    pub dim: (usize, usize, usize),
    pub data: Vec<u32>,
}

/// What an axis contributes to the addressable size of an array.
pub open spec fn axis_factor(length: usize) -> int {
    if length == 0 {
        1
    } else {
        length as int
    }
}

/// An array of this shape can be addressed: the product of its non-zero axis lengths is no more
/// than the largest `isize`.
pub open spec fn addressable2(dim: (usize, usize)) -> bool {
    axis_factor(dim.0) * axis_factor(dim.1) <= isize::MAX
}

/// As `addressable2`, for three axes.
pub open spec fn addressable3(dim: (usize, usize, usize)) -> bool {
    axis_factor(dim.0) * axis_factor(dim.1) * axis_factor(dim.2) <= isize::MAX
}

/// The number of elements of an array of this shape.
pub open spec fn size2(dim: (usize, usize)) -> int {
    dim.0 * dim.1
}

/// As `size2`, for three axes.
pub open spec fn size3(dim: (usize, usize, usize)) -> int {
    dim.0 * dim.1 * dim.2
}

/// The position of an element among the elements of a matrix.
pub open spec fn offset2(dim: (usize, usize), i: int, j: int) -> int {
    i * dim.1 + j
}

/// The position of an element among the elements of a tensor.
pub open spec fn offset3(dim: (usize, usize, usize), i: int, j: int, k: int) -> int {
    (i * dim.1 + j) * dim.2 + k
}

impl MatrixModel {
    /// The element in row `i` and column `j`.
    pub open spec fn at(self, i: int, j: int) -> u32 {
        self.elements[offset2(self.dim, i, j)]
    }

    /// The elements fill the shape, and the shape can be addressed.
    pub open spec fn well_formed(self) -> bool {
        &&& self.elements.len() == size2(self.dim)
        &&& addressable2(self.dim)
    }
}

impl TensorModel {
    /// The element with these three indices.
    pub open spec fn at(self, i: int, j: int, k: int) -> u32 {
        self.elements[offset3(self.dim, i, j, k)]
    }

    /// The elements fill the shape, and the shape can be addressed.
    pub open spec fn well_formed(self) -> bool {
        &&& self.elements.len() == size3(self.dim)
        &&& addressable3(self.dim)
    }
}

impl View for Matrix {
    type V = MatrixModel;

    open spec fn view(&self) -> MatrixModel {
        MatrixModel { dim: matrix_dim(*self), elements: matrix_elements(*self) }
    }
}

impl View for Tensor {
    type V = TensorModel;

    open spec fn view(&self) -> TensorModel {
        TensorModel { dim: tensor_dim(*self), elements: tensor_elements(*self) }
    }
}

impl View for TensorData {
    type V = TensorModel;

    open spec fn view(&self) -> TensorModel {
        TensorModel { dim: self.dim, elements: self.data@ }
    }
}

/// Why `len` elements in row-major order cannot be given a shape, in the words of `ndarray`;
/// `None` when they can.
pub open spec fn shape_fault(addressable: bool, size: int, len: int) -> Option<Seq<char>> {
    if !addressable {
        Some("ShapeError/Overflow: arithmetic overflow"@)
    } else if size > len {
        Some("ShapeError/OutOfBounds: out of bounds indexing"@)
    } else if size != len {
        Some("ShapeError/IncompatibleShape: incompatible shapes"@)
    } else {
        None
    }
}

/// `columns` lists, column after column, the elements of a matrix that `rows` lists row after
/// row.
pub open spec fn is_transposed(columns: Seq<u32>, rows: Seq<u32>, dim: (usize, usize)) -> bool {
    &&& columns.len() == rows.len()
    &&& forall|i: int, j: int|
        0 <= i < dim.0 && 0 <= j < dim.1 ==> columns[offset2((dim.1, dim.0), j, i)]
            == #[trigger] rows[offset2(dim, i, j)]
}

/// `ndarray::Array2::from_shape_vec`: the vector becomes the matrix, row after row, unless the
/// shape cannot be addressed or does not take exactly the elements of the vector. The error is
/// the text of the `ndarray::ShapeError`.
#[verifier::external_body]
fn matrix_from_shape_vec(dim: (usize, usize), data: Vec<u32>) -> (r: Result<Matrix, String>)
    ensures
        match r {
            Ok(matrix) => shape_fault(addressable2(dim), size2(dim), data@.len() as int) is None
                && matrix_dim(matrix) == dim && matrix_elements(matrix) == data@,
            Err(text) => shape_fault(addressable2(dim), size2(dim), data@.len() as int) == Some(
                text@,
            ),
        },
{
    match ndarray::Array2::from_shape_vec(dim, data) {
        Ok(array) => Ok(Matrix { array }),
        Err(error) => Err(error.to_string()),
    }
}

/// `ndarray::Array3::from_shape_vec`: the vector becomes the tensor, the last index running
/// fastest, unless the shape cannot be addressed or does not take exactly the elements of the
/// vector. The error is the text of the `ndarray::ShapeError`.
#[verifier::external_body]
fn tensor_from_shape_vec(dim: (usize, usize, usize), data: Vec<u32>) -> (r: Result<Tensor, String>)
    ensures
        match r {
            Ok(tensor) => shape_fault(addressable3(dim), size3(dim), data@.len() as int) is None
                && tensor_dim(tensor) == dim && tensor_elements(tensor) == data@,
            Err(text) => shape_fault(addressable3(dim), size3(dim), data@.len() as int) == Some(
                text@,
            ),
        },
{
    match ndarray::Array3::from_shape_vec(dim, data) {
        Ok(array) => Ok(Tensor { array }),
        Err(error) => Err(error.to_string()),
    }
}

/// `ndarray::ArrayRef::dim` of a matrix: its axis lengths. Every `ndarray` array has exactly as
/// many elements as its shape says, and a shape that can be addressed.
#[verifier::external_body]
fn matrix_shape(matrix: &Matrix) -> (r: (usize, usize))
    ensures
        r == matrix_dim(*matrix),
        matrix_elements(*matrix).len() == size2(r),
        addressable2(r),
{
    matrix.array.dim()
}

/// `ndarray::ArrayRef::dim` of a tensor: its axis lengths. Every `ndarray` array has exactly as
/// many elements as its shape says, and a shape that can be addressed.
#[verifier::external_body]
fn tensor_shape(tensor: &Tensor) -> (r: (usize, usize, usize))
    ensures
        r == tensor_dim(*tensor),
        tensor_elements(*tensor).len() == size3(r),
        addressable3(r),
{
    tensor.array.dim()
}

/// `ndarray`'s index operator on a matrix: the element in row `i` and column `j`.
#[verifier::external_body]
pub(crate) fn matrix_at(matrix: &Matrix, i: usize, j: usize) -> (r: u32)
    requires
        i < matrix_dim(*matrix).0,
        j < matrix_dim(*matrix).1,
    ensures
        r == matrix_elements(*matrix)[offset2(matrix_dim(*matrix), i as int, j as int)],
{
    matrix.array[[i, j]]
}

/// `ndarray`'s assignment through the index operator: one element of the tensor is replaced.
#[verifier::external_body]
pub(crate) fn tensor_set(tensor: &mut Tensor, i: usize, j: usize, k: usize, value: u32)
    requires
        i < tensor_dim(*old(tensor)).0,
        j < tensor_dim(*old(tensor)).1,
        k < tensor_dim(*old(tensor)).2,
    ensures
        tensor_dim(*final(tensor)) == tensor_dim(*old(tensor)),
        tensor_elements(*final(tensor)) == tensor_elements(*old(tensor)).update(
            offset3(tensor_dim(*old(tensor)), i as int, j as int, k as int),
            value,
        ),
{
    tensor.array[[i, j, k]] = value;
}

/// `ndarray::Array3::zeros`: a tensor of the given shape whose elements are all zero. It panics
/// where the shape cannot be addressed, and where its elements would take more bytes than the
/// largest `isize`.
#[verifier::external_body]
fn tensor_zeros(dim: (usize, usize, usize)) -> (r: Tensor)
    requires
        addressable3(dim),
        4 * size3(dim) <= isize::MAX,
    ensures
        tensor_dim(r) == dim,
        tensor_elements(r) == Seq::new(size3(dim) as nat, |n: int| 0u32),
{
    Tensor { array: ndarray::Array3::zeros(dim) }
}

/// `ndarray::ArrayRef::t`, `to_shape` and `to_owned`: the elements of the transposed matrix, row
/// after row, laid out in a new shape; the error is the text of the `ndarray::ShapeError` for a
/// shape of another size.
#[verifier::external_body]
pub(crate) fn matrix_transposed_to_shape(matrix: &Matrix, dim: (usize, usize, usize)) -> (r: Result<
    Tensor,
    String,
>)
    ensures
        r is Ok == (addressable3(dim) && size3(dim) == matrix_elements(*matrix).len()),
        match r {
            Ok(tensor) => tensor_dim(tensor) == dim && is_transposed(
                tensor_elements(tensor),
                matrix_elements(*matrix),
                matrix_dim(*matrix),
            ),
            Err(text) => text@ == "ShapeError/IncompatibleShape: incompatible shapes"@,
        },
{
    match matrix.array.t().to_shape(dim) {
        Ok(array) => Ok(Tensor { array: array.to_owned() }),
        Err(error) => Err(error.to_string()),
    }
}

/// `ndarray::ArrayRef::index_axis` on the first and on the last axis, then `to_vec`: the elements
/// that the middle index runs over.
#[verifier::external_body]
pub(crate) fn tensor_middle_axis(tensor: &Tensor, i: usize, k: usize) -> (r: Vec<u32>)
    requires
        i < tensor_dim(*tensor).0,
        k < tensor_dim(*tensor).2,
    ensures
        r@.len() == tensor_dim(*tensor).1,
        forall|j: int|
            0 <= j < r@.len() ==> #[trigger] r@[j] == tensor_elements(*tensor)[offset3(
                tensor_dim(*tensor),
                i as int,
                j,
                k as int,
            )],
{
    tensor.array.index_axis(ndarray::Axis(0), i).index_axis(ndarray::Axis(1), k).to_vec()
}

/// `ndarray::ArrayRef::flatten` and `to_vec`: the elements, the last index running fastest.
#[verifier::external_body]
fn tensor_flatten(tensor: &Tensor) -> (r: Vec<u32>)
    ensures
        r@ == tensor_elements(*tensor),
{
    tensor.array.flatten().to_vec()
}

/// Two positions in an array of rows coincide only where row and column do.
pub(crate) proof fn lemma_offset2_injective(dim: (usize, usize), i: int, j: int, i2: int, j2: int)
    requires
        0 <= j < dim.1,
        0 <= j2 < dim.1,
        offset2(dim, i, j) == offset2(dim, i2, j2),
    ensures
        i == i2,
        j == j2,
{
    let columns = dim.1 as int;
    assert((i - i2) * columns == j2 - j) by (nonlinear_arith)
        requires
            i * columns + j == i2 * columns + j2,
    ;
    if i > i2 {
        assert((i - i2) * columns >= columns) by (nonlinear_arith)
            requires
                i - i2 >= 1,
                columns >= 0,
        ;
    } else if i < i2 {
        assert((i - i2) * columns <= -columns) by (nonlinear_arith)
            requires
                i - i2 <= -1,
                columns >= 0,
        ;
    }
}

/// The position of an element lies among the elements.
pub(crate) proof fn lemma_offset2_bounds(dim: (usize, usize), i: int, j: int)
    requires
        0 <= i < dim.0,
        0 <= j < dim.1,
    ensures
        0 <= offset2(dim, i, j) < size2(dim),
{
    let rows = dim.0 as int;
    let columns = dim.1 as int;
    assert(0 <= i * columns && i * columns + columns <= rows * columns) by (nonlinear_arith)
        requires
            0 <= i,
            i + 1 <= rows,
            columns >= 0,
    ;
}

impl Matrix {
    /// The matrix with these elements, row after row.
    pub fn from_shape_vec(dim: (usize, usize), data: Vec<u32>) -> (r: Result<Matrix, ModelError>)
        ensures
            match shape_fault(addressable2(dim), size2(dim), data@.len() as int) {
                None => r matches Ok(matrix) && matrix@ == (MatrixModel { dim, elements: data@ }),
                Some(text) => r matches Err(ModelError::Model(message)) && message@ == text,
            },
    {
        match matrix_from_shape_vec(dim, data) {
            Ok(matrix) => Ok(matrix),
            Err(text) => Err(ModelError::Model(text)),
        }
    }

    /// The numbers of rows and columns.
    pub fn dim(&self) -> (r: (usize, usize))
        ensures
            r == self@.dim,
            self@.well_formed(),
    {
        matrix_shape(self)
    }
}

impl Tensor {
    /// The tensor with these elements, the last index running fastest. A failure reads `what`
    /// followed by the words of `ndarray`.
    pub fn from_shape_vec(what: &str, dim: (usize, usize, usize), data: Vec<u32>) -> (r: Result<
        Tensor,
        ModelError,
    >)
        ensures
            match shape_fault(addressable3(dim), size3(dim), data@.len() as int) {
                None => r matches Ok(tensor) && tensor@ == (TensorModel { dim, elements: data@ }),
                Some(text) => r matches Err(ModelError::Model(message)) && message@ == what@ + text,
            },
    {
        match tensor_from_shape_vec(dim, data) {
            Ok(tensor) => Ok(tensor),
            Err(text) => Err(ModelError::Model(joined(what, text.as_str()))),
        }
    }

    /// The axis lengths.
    pub fn dim(&self) -> (r: (usize, usize, usize))
        ensures
            r == self@.dim,
            self@.well_formed(),
    {
        tensor_shape(self)
    }

    /// The tensor as plain values.
    pub fn to_data(&self) -> (r: TensorData)
        ensures
            r@ == self@,
            self@.well_formed(),
    {
        let dim = tensor_shape(self);
        TensorData { dim, data: tensor_flatten(self) }
    }

    /// A tensor of zeros.
    pub(crate) fn zeros(dim: (usize, usize, usize)) -> (r: Tensor)
        requires
            addressable3(dim),
            4 * size3(dim) <= isize::MAX,
        ensures
            r@ == (TensorModel { dim, elements: Seq::new(size3(dim) as nat, |n: int| 0u32) }),
    {
        tensor_zeros(dim)
    }
}

/// Elements make a matrix exactly where they fill its shape and it can be addressed; the element in
/// row `i` and column `j` is then the one that comes after `i` full rows and `j` elements.
pub proof fn law_matrix_is_made_of_its_elements(
    dim: (usize, usize),
    data: Vec<u32>,
    r: Result<Matrix, ModelError>,
    i: int,
    j: int,
)
    requires
        call_ensures(Matrix::from_shape_vec, (dim, data), r),
        0 <= i < dim.0,
        0 <= j < dim.1,
    ensures
        r is Ok <==> dim.0 * dim.1 == data@.len() && dim.0 * dim.1 <= isize::MAX,
        r matches Ok(matrix) ==> matrix@.dim == dim && matrix@.elements == data@ && matrix@.at(i, j)
            == data@[i * dim.1 + j],
        r matches Err(error) ==> error is Model,
{
}

/// Elements make a tensor exactly where they fill its shape and it can be addressed; the element
/// with three indices is then found with the last index running fastest.
pub proof fn law_tensor_is_made_of_its_elements(
    what: &str,
    dim: (usize, usize, usize),
    data: Vec<u32>,
    r: Result<Tensor, ModelError>,
    i: int,
    j: int,
    k: int,
)
    requires
        call_ensures(Tensor::from_shape_vec, (what, dim, data), r),
        0 <= i < dim.0,
        0 <= j < dim.1,
        0 <= k < dim.2,
    ensures
        r is Ok <==> dim.0 * dim.1 * dim.2 == data@.len() && dim.0 * dim.1 * dim.2 <= isize::MAX,
        r matches Ok(tensor) ==> tensor@.dim == dim && tensor@.elements == data@ && tensor@.at(
            i,
            j,
            k,
        ) == data@[(i * dim.1 + j) * dim.2 + k],
        r matches Err(error) ==> (error matches ModelError::Model(message) && what@.is_prefix_of(
            message@,
        )),
{
    if let Err(ModelError::Model(message)) = r {
        let text = shape_fault(addressable3(dim), size3(dim), data@.len() as int)->0;
        assert(what@ =~= (what@ + text).subrange(0, what@.len() as int));
    }
}

/// What a tensor is made of is what it is read as.
pub proof fn law_tensor_reads_back(
    what: &str,
    dim: (usize, usize, usize),
    data: Vec<u32>,
    tensor: Tensor,
    read: (usize, usize, usize),
    shown: TensorData,
)
    requires
        call_ensures(
            Tensor::from_shape_vec,
            (what, dim, data),
            Ok::<Tensor, ModelError>(tensor),
        ),
        call_ensures(Tensor::dim, (&tensor,), read),
        call_ensures(Tensor::to_data, (&tensor,), shown),
    ensures
        read == dim,
        shown.dim == dim,
        shown.data@ == data@,
{
}

}

//! Arrays of values and lists of them, as plain values.

use vstd::prelude::*;

use arrow::buffer::NullBuffer;

use crate::error::{Error, ErrorView};
use crate::outside::{fixed_size_lists, list_count, list_refusal, null_bits};

verus! {

/// The numeric types of a fixed width.
#[derive(Clone, Copy, Debug, PartialEq, Eq, Structural)]
pub enum PrimitiveType {
    Int8,
    Int16,
    Int32,
    Int64,
    UInt8,
    UInt16,
    UInt32,
    UInt64,
    Float16,
    Float32,
    Float64,
}

impl PrimitiveType {
    /// The number of bytes that one value takes.
    pub open spec fn width(self) -> nat {
        match self {
            PrimitiveType::Int8 | PrimitiveType::UInt8 => 1,
            PrimitiveType::Int16 | PrimitiveType::UInt16 | PrimitiveType::Float16 => 2,
            PrimitiveType::Int32 | PrimitiveType::UInt32 | PrimitiveType::Float32 => 4,
            PrimitiveType::Int64 | PrimitiveType::UInt64 | PrimitiveType::Float64 => 8,
        }
    }

    /// The name that arrow gives the type.
    pub open spec fn spec_name(self) -> Seq<char> {
        match self {
            PrimitiveType::Int8 => "Int8"@,
            PrimitiveType::Int16 => "Int16"@,
            PrimitiveType::Int32 => "Int32"@,
            PrimitiveType::Int64 => "Int64"@,
            PrimitiveType::UInt8 => "UInt8"@,
            PrimitiveType::UInt16 => "UInt16"@,
            PrimitiveType::UInt32 => "UInt32"@,
            PrimitiveType::UInt64 => "UInt64"@,
            PrimitiveType::Float16 => "Float16"@,
            PrimitiveType::Float32 => "Float32"@,
            PrimitiveType::Float64 => "Float64"@,
        }
    }

    /// The number of bytes that one value takes.
    pub fn byte_width(self) -> (width: usize)
        ensures
            width == self.width(),
    {
        match self {
            PrimitiveType::Int8 | PrimitiveType::UInt8 => 1,
            PrimitiveType::Int16 | PrimitiveType::UInt16 | PrimitiveType::Float16 => 2,
            PrimitiveType::Int32 | PrimitiveType::UInt32 | PrimitiveType::Float32 => 4,
            PrimitiveType::Int64 | PrimitiveType::UInt64 | PrimitiveType::Float64 => 8,
        }
    }

    /// The name that arrow gives the type.
    pub fn name(self) -> (name: &'static str)
        ensures
            name@ == self.spec_name(),
    {
        match self {
            PrimitiveType::Int8 => "Int8",
            PrimitiveType::Int16 => "Int16",
            PrimitiveType::Int32 => "Int32",
            PrimitiveType::Int64 => "Int64",
            PrimitiveType::UInt8 => "UInt8",
            PrimitiveType::UInt16 => "UInt16",
            PrimitiveType::UInt32 => "UInt32",
            PrimitiveType::UInt64 => "UInt64",
            PrimitiveType::Float16 => "Float16",
            PrimitiveType::Float32 => "Float32",
            PrimitiveType::Float64 => "Float64",
        }
    }
}

/// The type of an array's values.
#[derive(Debug)]
pub enum DataType {
    /// A number of a fixed width.
    Primitive(PrimitiveType),
    /// Any other type, by the name that arrow gives it.
    Other(String),
}

/// A type, its name taken as a sequence of characters.
pub enum DataTypeView {
    Primitive(PrimitiveType),
    Other(Seq<char>),
}

impl View for DataType {
    type V = DataTypeView;

    open spec fn view(&self) -> DataTypeView {
        match self {
            DataType::Primitive(primitive) => DataTypeView::Primitive(*primitive),
            DataType::Other(name) => DataTypeView::Other(name@),
        }
    }
}

impl DataTypeView {
    /// The name that arrow gives the type.
    pub open spec fn name(self) -> Seq<char> {
        match self {
            DataTypeView::Primitive(primitive) => primitive.spec_name(),
            DataTypeView::Other(name) => name,
        }
    }
}

/// The bits of a validity bitmap that may be missing, where nothing is null.
pub open spec fn validity(nulls: Option<NullBuffer>) -> Option<Seq<bool>> {
    match nulls {
        Some(nulls) => Some(null_bits(nulls)),
        None => None,
    }
}

/// Whether slot `i` holds a value.
pub open spec fn is_valid_at(validity: Option<Seq<bool>>, i: int) -> bool {
    match validity {
        Some(bits) => bits[i],
        None => true,
    }
}

/// Whether a bitmap, where there is one, has one bit for each of `len` slots.
pub open spec fn validity_fits(validity: Option<Seq<bool>>, len: nat) -> bool {
    match validity {
        Some(bits) => bits.len() == len,
        None => true,
    }
}

/// Numbers of one type, one after another in `data`, each with its least
/// significant byte first. On machines that keep bytes in this order, as the
/// conversions from and to arrow suppose, these are the bytes of an arrow
/// buffer.
#[derive(Debug)]
pub struct PrimitiveArray {
    pub data_type: PrimitiveType,
    pub len: usize,
    pub data: Vec<u8>,
    pub nulls: Option<NullBuffer>,
}

/// A [`PrimitiveArray`] as mathematical values.
#[verifier::ext_equal]
pub struct PrimitiveArrayView {
    pub data_type: PrimitiveType,
    pub len: nat,
    pub data: Seq<u8>,
    pub validity: Option<Seq<bool>>,
}

impl View for PrimitiveArray {
    type V = PrimitiveArrayView;

    open spec fn view(&self) -> PrimitiveArrayView {
        PrimitiveArrayView {
            data_type: self.data_type,
            len: self.len as nat,
            data: self.data@,
            validity: validity(self.nulls),
        }
    }
}

/// The part of a bitmap that belongs to `len` slots from `offset` on.
pub open spec fn validity_slice(validity: Option<Seq<bool>>, offset: nat, len: nat) -> Option<
    Seq<bool>,
> {
    match validity {
        Some(bits) => Some(bits.subrange(offset as int, (offset + len) as int)),
        None => None,
    }
}

impl PrimitiveArrayView {
    /// The `len` values from `offset` on.
    pub open spec fn slice(self, offset: nat, len: nat) -> PrimitiveArrayView {
        let width = self.data_type.width();
        PrimitiveArrayView {
            data_type: self.data_type,
            len,
            data: self.data.subrange((offset * width) as int, (offset * width + len * width) as int),
            validity: validity_slice(self.validity, offset, len),
        }
    }

    /// The bytes and the bitmap fit the number of values.
    pub open spec fn wf(self) -> bool {
        &&& self.data.len() == self.len * self.data_type.width()
        &&& validity_fits(self.validity, self.len)
    }
}

/// Whether a bitmap, where there is one, has one bit for each of `len` slots.
fn nulls_fit(nulls: &Option<NullBuffer>, len: usize) -> (fit: bool)
    ensures
        fit == validity_fits(validity(*nulls), len as nat),
{
    match nulls {
        Some(nulls) => nulls.len() == len,
        None => true,
    }
}

impl PrimitiveArray {
    /// The bytes and the bitmap fit the number of values.
    pub open spec fn wf(&self) -> bool {
        self@.wf()
    }

    /// Puts an array together, if the parts fit one another.
    pub fn from_parts(
        data_type: PrimitiveType,
        len: usize,
        data: Vec<u8>,
        nulls: Option<NullBuffer>,
    ) -> (array: Option<Self>)
        ensures
            match array {
                Some(array) => array.wf() && array == (PrimitiveArray {
                    data_type,
                    len,
                    data,
                    nulls,
                }),
                None => !(PrimitiveArray { data_type, len, data, nulls }).wf(),
            },
    {
        let data_len: usize = data.len();
        let fits = match len.checked_mul(data_type.byte_width()) {
            Some(size) => data_len == size && nulls_fit(&nulls, len),
            None => false,
        };
        if fits {
            Some(PrimitiveArray { data_type, len, data, nulls })
        } else {
            None
        }
    }
}

/// An array of values.
#[derive(Debug)]
pub enum Array {
    /// Numbers of a fixed width.
    Primitive(PrimitiveArray),
    /// Values of another type, of which only the nulls are known.
    Other { name: String, len: usize, nulls: Option<NullBuffer> },
}

/// An [`Array`] as mathematical values.
#[verifier::ext_equal]
pub enum ArrayView {
    Primitive(PrimitiveArrayView),
    Other { name: Seq<char>, len: nat, validity: Option<Seq<bool>> },
}

impl View for Array {
    type V = ArrayView;

    open spec fn view(&self) -> ArrayView {
        match self {
            Array::Primitive(array) => ArrayView::Primitive(array@),
            Array::Other { name, len, nulls } => ArrayView::Other {
                name: name@,
                len: *len as nat,
                validity: validity(*nulls),
            },
        }
    }
}

impl ArrayView {
    /// The `len` values from `offset` on.
    pub open spec fn slice(self, offset: nat, len: nat) -> ArrayView {
        match self {
            ArrayView::Primitive(array) => ArrayView::Primitive(array.slice(offset, len)),
            ArrayView::Other { name, validity, .. } => ArrayView::Other {
                name,
                len,
                validity: validity_slice(validity, offset, len),
            },
        }
    }

    /// The number of values.
    pub open spec fn len(self) -> nat {
        match self {
            ArrayView::Primitive(array) => array.len,
            ArrayView::Other { len, .. } => len,
        }
    }

    /// The type of the values.
    pub open spec fn data_type(self) -> DataTypeView {
        match self {
            ArrayView::Primitive(array) => DataTypeView::Primitive(array.data_type),
            ArrayView::Other { name, .. } => DataTypeView::Other(name),
        }
    }

    /// Which values are not null.
    pub open spec fn validity(self) -> Option<Seq<bool>> {
        match self {
            ArrayView::Primitive(array) => array.validity,
            ArrayView::Other { validity, .. } => validity,
        }
    }

    /// The parts fit the number of values.
    pub open spec fn wf(self) -> bool {
        match self {
            ArrayView::Primitive(array) => array.wf(),
            ArrayView::Other { len, validity, .. } => validity_fits(validity, len),
        }
    }
}

impl Array {
    /// The parts fit the number of values.
    pub open spec fn wf(&self) -> bool {
        self@.wf()
    }

    /// Puts an array of values other than numbers together, if the bitmap fits
    /// the number of values.
    pub fn other_from_parts(name: String, len: usize, nulls: Option<NullBuffer>) -> (array: Option<
        Self,
    >)
        ensures
            match array {
                Some(array) => array.wf() && array == (Array::Other { name, len, nulls }),
                None => !(Array::Other { name, len, nulls }).wf(),
            },
    {
        if nulls_fit(&nulls, len) {
            Some(Array::Other { name, len, nulls })
        } else {
            None
        }
    }

    /// The number of values.
    pub fn len(&self) -> (len: usize)
        ensures
            len == self@.len(),
    {
        match self {
            Array::Primitive(array) => array.len,
            Array::Other { len, .. } => *len,
        }
    }

    /// The type of the values.
    pub fn data_type(&self) -> (data_type: DataType)
        ensures
            data_type@ == self@.data_type(),
    {
        match self {
            Array::Primitive(array) => DataType::Primitive(array.data_type),
            Array::Other { name, .. } => DataType::Other(name.clone()),
        }
    }
}

/// What is said of the values of a list.
#[derive(Debug)]
pub struct ListField {
    /// The name of the values.
    pub name: String,
    /// Whether values can be null.
    pub nullable: bool,
}

/// A [`ListField`] as mathematical values.
#[verifier::ext_equal]
pub struct ListFieldView {
    pub name: Seq<char>,
    pub nullable: bool,
}

impl View for ListField {
    type V = ListFieldView;

    open spec fn view(&self) -> ListFieldView {
        ListFieldView { name: self.name@, nullable: self.nullable }
    }
}

/// What is said of the values of lists that are cut from an array: they are
/// items, and can be null.
pub open spec fn item_field() -> ListFieldView {
    ListFieldView { name: "item"@, nullable: true }
}

/// Lists of `value_length` values each, one after another in `values`.
#[derive(Debug)]
pub struct FixedSizeListArray {
    pub field: ListField,
    pub values: Array,
    pub value_length: i32,
    pub len: usize,
    pub nulls: Option<NullBuffer>,
}

/// A [`FixedSizeListArray`] as mathematical values.
#[verifier::ext_equal]
pub struct FixedSizeListView {
    pub field: ListFieldView,
    pub values: ArrayView,
    pub value_length: int,
    pub len: nat,
    pub validity: Option<Seq<bool>>,
}

impl View for FixedSizeListArray {
    type V = FixedSizeListView;

    open spec fn view(&self) -> FixedSizeListView {
        FixedSizeListView {
            field: self.field@,
            values: self.values@,
            value_length: self.value_length as int,
            len: self.len as nat,
            validity: validity(self.nulls),
        }
    }
}

impl FixedSizeListView {
    /// The `len` lists from `offset` on.
    pub open spec fn slice(self, offset: nat, len: nat) -> FixedSizeListView {
        FixedSizeListView {
            field: self.field,
            values: self.values.slice(
                (offset * self.value_length) as nat,
                (len * self.value_length) as nat,
            ),
            value_length: self.value_length,
            len,
            validity: validity_slice(self.validity, offset, len),
        }
    }

    /// The values are those of the lists and no others, and the bitmap has one
    /// bit for each list.
    pub open spec fn wf(self) -> bool {
        &&& self.values.wf()
        &&& self.value_length >= 0
        &&& self.values.len() == self.len * self.value_length
        &&& validity_fits(self.validity, self.len)
    }
}

/// A slice of lists that fit their parts is such lists, too, and its values lie
/// among all the values.
pub(crate) proof fn lemma_slice(lists: FixedSizeListView, offset: nat, len: nat)
    requires
        lists.wf(),
        offset + len <= lists.len,
    ensures
        lists.slice(offset, len).wf(),
        0 <= offset * lists.value_length,
        0 <= len * lists.value_length,
        offset * lists.value_length + len * lists.value_length <= lists.values.len(),
{
    let size = lists.value_length;
    assert(0 <= offset * size && 0 <= len * size && offset * size + len * size <= lists.len * size)
        by (nonlinear_arith)
        requires
            size >= 0,
            offset + len <= lists.len,
    ;
    if let ArrayView::Primitive(array) = lists.values {
        let width = array.data_type.width();
        assert(offset * size * width + len * size * width <= array.len * width)
            by (nonlinear_arith)
            requires
                offset * size + len * size <= array.len,
                width >= 0,
        ;
        assert(0 <= offset * size * width) by (nonlinear_arith)
            requires
                0 <= offset * size,
                width >= 0,
        ;
        assert(0 <= len * size * width) by (nonlinear_arith)
            requires
                0 <= len * size,
                width >= 0,
        ;
    }
}

/// Cuts the values into lists of `size` values each, none of them null.
pub open spec fn lists_of(values: ArrayView, size: int) -> Result<FixedSizeListView, ErrorView> {
    match list_refusal(values.len(), size) {
        Some(message) => Err(ErrorView::Arrow { message }),
        None => Ok(
            FixedSizeListView {
                field: item_field(),
                values,
                value_length: size,
                len: list_count(values.len(), size),
                validity: None,
            },
        ),
    }
}

/// Lists that arrow makes of values hold all of them.
pub(crate) proof fn lemma_lists_hold_the_values(values_len: nat, size: int)
    requires
        list_refusal(values_len, size) is None,
    ensures
        size >= 0,
        list_count(values_len, size) * size == values_len,
{
    if size > 0 {
        vstd::arithmetic::div_mod::lemma_fundamental_div_mod(values_len as int, size);
        assert(size * (values_len as int / size) == (values_len as int / size) * size)
            by (nonlinear_arith);
    }
}

/// Arrow makes `count` lists of as many values as `count` lists hold, unless
/// lists without values are to be counted.
pub(crate) proof fn lemma_lists_are_counted(count: nat, size: int)
    requires
        size >= 0,
    ensures
        count * size >= 0,
        list_refusal((count * size) as nat, size) is None,
        size > 0 || count == 0 ==> list_count((count * size) as nat, size) == count,
{
    if size > 0 {
        vstd::arithmetic::div_mod::lemma_div_multiples_vanish(count as int, size);
        vstd::arithmetic::div_mod::lemma_mod_multiples_basic(count as int, size);
        assert(size * count == count * size) by (nonlinear_arith);
        assert(count * size >= 0) by (nonlinear_arith)
            requires
                size > 0,
        ;
    } else {
        assert(count * size == 0) by (nonlinear_arith)
            requires
                size == 0,
        ;
    }
}

impl FixedSizeListArray {
    /// The parts fit one another.
    pub open spec fn wf(&self) -> bool {
        self@.wf()
    }

    /// Puts lists together, if the parts fit one another.
    pub fn from_parts(
        field: ListField,
        values: Array,
        value_length: i32,
        len: usize,
        nulls: Option<NullBuffer>,
    ) -> (lists: Option<Self>)
        requires
            values.wf(),
        ensures
            match lists {
                Some(lists) => lists.wf() && lists == (FixedSizeListArray {
                    field,
                    values,
                    value_length,
                    len,
                    nulls,
                }),
                None => !(FixedSizeListArray { field, values, value_length, len, nulls }).wf(),
            },
    {
        if value_length < 0 {
            return None;
        }
        let fits = match len.checked_mul(value_length as usize) {
            Some(size) => values.len() == size && nulls_fit(&nulls, len),
            None => false,
        };
        if fits {
            Some(FixedSizeListArray { field, values, value_length, len, nulls })
        } else {
            None
        }
    }

    /// Cuts the values into lists of `list_size` values each, none of them
    /// null.
    pub fn try_new_from_values(values: Array, list_size: i32) -> (lists: Result<Self, Error>)
        requires
            values.wf(),
        ensures
            match lists {
                Ok(lists) => lists.wf() && lists_of(values@, list_size as int) == Ok::<
                    FixedSizeListView,
                    ErrorView,
                >(lists@),
                Err(error) => lists_of(values@, list_size as int) == Err::<
                    FixedSizeListView,
                    ErrorView,
                >(error@),
            },
    {
        let field = ListField { name: "item".to_owned(), nullable: true };
        match fixed_size_lists(&field, values.len(), list_size) {
            Ok(len) => {
                proof {
                    lemma_lists_hold_the_values(values@.len(), list_size as int);
                }
                Ok(FixedSizeListArray { field, values, value_length: list_size, len, nulls: None })
            },
            Err(message) => Err(Error::Arrow { message }),
        }
    }
}

} // verus!

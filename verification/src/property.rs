//! Typed properties that are read and written through untyped memory.
//!
//! The HAL names a property by its selector and hands over an address and a
//! number of bytes. A property checks what it was given (null, alignment, size,
//! whether it may be set) before it touches anything, and answers with the
//! status that belongs to the first check that failed.
//!
//! A span of the caller's memory is given as the address at which it starts,
//! zero standing for a null pointer, and the bytes in it as a slice.
use crate::os_err::{
    OSStatus, OSStatusError, AUDIO_HARDWARE_BAD_OBJECT_ERROR,
    AUDIO_HARDWARE_BAD_PROPERTY_SIZE_ERROR, AUDIO_HARDWARE_ILLEGAL_OPERATION_ERROR,
    AUDIO_HARDWARE_UNSPECIFIED_ERROR,
};
use crate::value::{splice, PropertyValue};
use vstd::prelude::*;

verus! {

/// The 32-bit identifier that names one property of an audio object.
#[derive(Debug, Clone, Copy, PartialEq, Eq, Hash, Structural)]
pub struct PropertySelector(pub u32);

impl From<u32> for PropertySelector {
    fn from(value: u32) -> (selector: Self) {
        PropertySelector(value)
    }
}

impl vstd::std_specs::convert::FromSpecImpl<u32> for PropertySelector {
    open spec fn obeys_from_spec() -> bool {
        true
    }

    open spec fn from_spec(value: u32) -> Self {
        PropertySelector(value)
    }
}

impl From<PropertySelector> for u32 {
    fn from(value: PropertySelector) -> (raw: Self) {
        value.0
    }
}

impl vstd::std_specs::convert::FromSpecImpl<PropertySelector> for u32 {
    open spec fn obeys_from_spec() -> bool {
        true
    }

    open spec fn from_spec(value: PropertySelector) -> Self {
        value.0
    }
}

/// What the HAL can observe of a property.
pub struct PropertyData {
    /// The selector under which the property is found.
    pub selector: PropertySelector,
    /// Whether the HAL may set the property.
    pub settable: bool,
    /// Whether the payload is a sequence of elements rather than one value.
    pub array: bool,
    /// The size of one element in bytes.
    pub unit: nat,
    /// The alignment that an address of an element must have.
    pub align: nat,
    /// The payload: the bytes of the value, or of the elements in their order.
    pub bytes: Seq<u8>,
}

impl PropertyData {
    /// The number of elements in the payload.
    pub open spec fn count(self) -> nat {
        self.bytes.len() / self.unit
    }

    /// The same property with another payload.
    pub open spec fn with_bytes(self, bytes: Seq<u8>) -> Self {
        PropertyData { bytes, ..self }
    }
}

/// The code with which `set` refuses a span of `len` bytes at `address`, or
/// `None` where it accepts the span.
///
/// A null address is refused first. A single value then looks at the
/// alignment before the size, an array at the size before the alignment; both
/// look last at whether the property may be set.
pub open spec fn set_refusal(property: PropertyData, address: usize, len: nat) -> Option<u32> {
    if address == 0 {
        Some(AUDIO_HARDWARE_ILLEGAL_OPERATION_ERROR)
    } else if !property.array && address as nat % property.align != 0 {
        Some(AUDIO_HARDWARE_BAD_OBJECT_ERROR)
    } else if len != property.unit {
        Some(AUDIO_HARDWARE_BAD_PROPERTY_SIZE_ERROR)
    } else if address as nat % property.align != 0 {
        Some(AUDIO_HARDWARE_BAD_OBJECT_ERROR)
    } else if !property.settable {
        Some(AUDIO_HARDWARE_UNSPECIFIED_ERROR)
    } else {
        None
    }
}

/// The code with which `get` refuses a destination of `capacity` bytes at
/// `address`, or `None` where it accepts it. `has_len_out` says whether there
/// is a place to report the length to.
pub open spec fn get_refusal(
    property: PropertyData,
    address: usize,
    capacity: nat,
    has_len_out: bool,
) -> Option<u32> {
    if address == 0 || !has_len_out {
        Some(AUDIO_HARDWARE_ILLEGAL_OPERATION_ERROR)
    } else if capacity < property.unit {
        Some(AUDIO_HARDWARE_BAD_PROPERTY_SIZE_ERROR)
    } else if address as nat % property.align != 0 {
        Some(AUDIO_HARDWARE_BAD_OBJECT_ERROR)
    } else {
        None
    }
}

/// The number of elements that `get` hands over into `capacity` bytes: as
/// many whole elements as fit, and no more than there are.
pub open spec fn transferred_count(property: PropertyData, capacity: nat) -> nat {
    if capacity / property.unit <= property.count() {
        capacity / property.unit
    } else {
        property.count()
    }
}

/// The number of bytes that `get` hands over into `capacity` bytes.
pub open spec fn transferred_len(property: PropertyData, capacity: nat) -> nat {
    transferred_count(property, capacity) * property.unit
}

/// The capability that every property offers to the HAL: to say what it is,
/// and to be read and written through untyped memory.
pub trait RawProperty {
    /// What the HAL can observe of the property.
    spec fn data(&self) -> PropertyData;

    /// The selector of the property; it never changes.
    fn selector(&self) -> (selector: PropertySelector)
        ensures
            selector == self.data().selector,
    ;

    /// The size of the whole payload in bytes.
    fn byte_size(&self) -> (size: u32)
        ensures
            size == self.data().bytes.len(),
    ;

    /// Whether the property is offered as settable.
    fn is_mut(&self) -> (settable: bool)
        ensures
            settable == self.data().settable,
    ;

    /// Replaces the payload by the bytes of `data`, which lie at `address`.
    ///
    /// Either the span is refused, with the code of `set_refusal`, and the
    /// property stays as it was; or the payload becomes exactly `data`.
    fn set(&mut self, address: usize, data: &[u8]) -> (status: OSStatus)
        ensures
            final(self).data().selector == old(self).data().selector,
            match set_refusal(old(self).data(), address, data@.len()) {
                Some(code) => {
                    &&& status matches Err(error)
                    &&& error.spec_code() == code
                    &&& final(self).data() == old(self).data()
                },
                None => {
                    &&& status is Ok
                    &&& final(self).data() == old(self).data().with_bytes(data@)
                },
            },
    ;

    /// Copies the payload to `data_out`, which lies at `address`, and reports
    /// the number of bytes written in `data_len_out`.
    ///
    /// Either the destination is refused, with the code of `get_refusal`, and
    /// nothing is written; or the first `transferred_len` bytes of `data_out`
    /// become the first bytes of the payload, the rest of `data_out` stays, and
    /// that number is reported.
    fn get(&self, address: usize, data_out: &mut [u8], data_len_out: Option<&mut u32>) -> (status:
        OSStatus)
        ensures
            match get_refusal(self.data(), address, old(data_out)@.len(), data_len_out is Some) {
                Some(code) => {
                    &&& status matches Err(error)
                    &&& error.spec_code() == code
                    &&& final(data_out)@ == old(data_out)@
                    &&& data_len_out matches Some(len) ==> *final(len) == *len
                },
                None => {
                    &&& status is Ok
                    &&& final(data_out)@ == splice(
                        old(data_out)@,
                        0,
                        self.data().bytes.take(
                            transferred_len(self.data(), old(data_out)@.len()) as int,
                        ),
                    )
                    &&& data_len_out matches Some(len)
                    &&& *final(len) == transferred_len(self.data(), old(data_out)@.len())
                },
            },
    ;
}

/// A single value of type `T` as the property with selector `SEL`, settable
/// where `MUTABLE_PROP` says so.
#[derive(Debug, Clone)]
pub struct Prop<T, const SEL: u32, const MUTABLE_PROP: bool>(pub T);

impl<T, const SEL: u32, const MUTABLE_PROP: bool> Prop<T, SEL, MUTABLE_PROP> {
    /// The property that holds the given value.
    pub fn new(val: T) -> (property: Self)
        ensures
            property.0 == val,
    {
        Prop(val)
    }
}

impl<T: PropertyValue, const SEL: u32, const MUTABLE_PROP: bool> RawProperty for Prop<
    T,
    SEL,
    MUTABLE_PROP,
> {
    open spec fn data(&self) -> PropertyData {
        PropertyData {
            selector: PropertySelector(SEL),
            settable: MUTABLE_PROP,
            array: false,
            unit: T::spec_size(),
            align: T::spec_align(),
            bytes: self.0.spec_encode(),
        }
    }

    fn selector(&self) -> (selector: PropertySelector) {
        PropertySelector(SEL)
    }

    fn byte_size(&self) -> (size: u32) {
        proof {
            self.0.decode_of_encode();
        }
        T::size()
    }

    #[inline]
    fn is_mut(&self) -> (settable: bool) {
        MUTABLE_PROP
    }

    /// Puts the value that `data` stands for in the place of the stored one.
    fn set(&mut self, address: usize, data: &[u8]) -> (status: OSStatus)
        ensures
            status is Ok ==> final(self).0 == T::spec_decode(data@),
            status is Err ==> final(self).0 == old(self).0,
    {
        proof {
            T::layout_bounds();
        }
        if address == 0 {
            return Err(OSStatusError::hw_illegal_operation());
        }
        if address % T::align() != 0 {
            return Err(OSStatusError::hw_bad_object());
        }
        if data.len() != T::size() as usize {
            return Err(OSStatusError::hw_bad_property_size());
        }
        if !MUTABLE_PROP {
            return Err(OSStatusError::hw_unspecified());
        }
        let val = T::decode(data, 0);
        proof {
            assert(data@.subrange(0, T::spec_size() as int) == data@);
            T::encode_of_decode(data@);
        }
        self.0 = val;
        Ok(())
    }

    /// Writes the bytes of the stored value to the front of `data_out` and
    /// reports the value's size.
    fn get(&self, address: usize, data_out: &mut [u8], data_len_out: Option<&mut u32>) -> (status:
        OSStatus)
        ensures
            status is Ok ==> {
                &&& final(data_out)@ == splice(old(data_out)@, 0, self.0.spec_encode())
                &&& data_len_out matches Some(len)
                &&& *final(len) == T::spec_size()
            },
    {
        proof {
            T::layout_bounds();
            self.0.decode_of_encode();
        }
        let len_out = match data_len_out {
            Some(len_out) => len_out,
            None => {
                return Err(OSStatusError::hw_illegal_operation());
            },
        };
        if address == 0 {
            return Err(OSStatusError::hw_illegal_operation());
        }
        if data_out.len() < T::size() as usize {
            return Err(OSStatusError::hw_bad_property_size());
        }
        if address % T::align() != 0 {
            return Err(OSStatusError::hw_bad_object());
        }
        proof {
            lemma_one_element(self.data(), old(data_out)@.len());
            assert(self.data().bytes.take(T::spec_size() as int) == self.data().bytes);
        }
        self.0.encode(data_out, 0);
        *len_out = T::size();
        Ok(())
    }
}

/// A payload of exactly one element is handed over whole into any capacity
/// that holds one element.
pub proof fn lemma_one_element(property: PropertyData, capacity: nat)
    requires
        1 <= property.unit,
        property.bytes.len() == property.unit,
        property.unit <= capacity,
    ensures
        property.count() == 1,
        transferred_count(property, capacity) == 1,
        transferred_len(property, capacity) == property.unit,
{
    let unit = property.unit as int;
    assert(unit / unit == 1) by (nonlinear_arith)
        requires
            1 <= unit,
    ;
    assert(capacity as int / unit >= 1) by (nonlinear_arith)
        requires
            1 <= unit,
            unit <= capacity,
    ;
}

/// The bytes of the elements, one after another in their order.
pub open spec fn encode_all<T: PropertyValue>(items: Seq<T>) -> Seq<u8>
    decreases items.len(),
{
    if items.len() == 0 {
        Seq::empty()
    } else {
        encode_all(items.drop_last()) + items.last().spec_encode()
    }
}

/// Every element takes its size in the bytes of a sequence.
pub proof fn lemma_encode_all_len<T: PropertyValue>(items: Seq<T>)
    ensures
        encode_all(items).len() == items.len() * T::spec_size(),
    decreases items.len(),
{
    if items.len() > 0 {
        lemma_encode_all_len(items.drop_last());
        items.last().decode_of_encode();
        let n = items.len() as int;
        let unit = T::spec_size() as int;
        assert((n - 1) * unit + unit == n * unit) by (nonlinear_arith);
    }
}

/// The bytes of the first `n` elements are the first bytes of the whole.
pub proof fn lemma_encode_all_take<T: PropertyValue>(items: Seq<T>, n: int)
    requires
        0 <= n <= items.len(),
    ensures
        n * T::spec_size() <= encode_all(items).len(),
        encode_all(items.take(n)) == encode_all(items).take(n * T::spec_size()),
    decreases items.len(),
{
    let unit = T::spec_size() as int;
    let len = items.len() as int;
    lemma_encode_all_len(items);
    if n == len {
        assert(items.take(n) == items);
        assert(encode_all(items).take(n * unit) == encode_all(items));
    } else {
        let init = items.drop_last();
        lemma_encode_all_take(init, n);
        lemma_encode_all_len(init);
        assert(items.take(n) == init.take(n));
        assert(n * unit <= (len - 1) * unit) by (nonlinear_arith)
            requires
                0 <= n <= len - 1,
                0 <= unit,
        ;
        assert((len - 1) * unit <= len * unit) by (nonlinear_arith)
            requires
                0 <= unit,
        ;
        assert(encode_all(items).take(n * unit) == encode_all(init).take(n * unit));
    }
}

/// An ordered sequence of values of type `T` as the property with selector
/// `SEL`, settable where `MUTABLE_PROP` says so. Its payload never takes more
/// bytes than a 32-bit size can count.
#[derive(Debug)]
pub struct ArrayProp<T: PropertyValue, const SEL: u32, const MUTABLE_PROP: bool> {
    props: Vec<T>,
}

impl<T: PropertyValue, const SEL: u32, const MUTABLE_PROP: bool> View for ArrayProp<
    T,
    SEL,
    MUTABLE_PROP,
> {
    type V = Seq<T>;

    closed spec fn view(&self) -> Seq<T> {
        self.props@
    }
}

impl<T: PropertyValue, const SEL: u32, const MUTABLE_PROP: bool> ArrayProp<T, SEL, MUTABLE_PROP> {
    #[verifier::type_invariant]
    spec fn fits_in_u32(self) -> bool {
        self.props@.len() * T::spec_size() <= u32::MAX
    }

    /// Whether a payload of `count` elements can be counted in 32 bits.
    pub open spec fn spec_fits(count: nat) -> bool {
        count * T::spec_size() <= u32::MAX
    }

    /// The property that holds the given elements in their order.
    pub fn new_with(props: Vec<T>) -> (property: Self)
        requires
            Self::spec_fits(props@.len()),
        ensures
            property@ == props@,
    {
        ArrayProp { props }
    }

    /// The property without elements.
    pub fn new() -> (property: Self)
        ensures
            property@ == Seq::<T>::empty(),
    {
        ArrayProp { props: Vec::new() }
    }

    /// The number of elements.
    pub fn len(&self) -> (len: usize)
        ensures
            len == self@.len(),
            Self::spec_fits(self@.len()),
    {
        proof {
            use_type_invariant(self);
        }
        self.props.len()
    }

    /// The elements in their order.
    pub fn as_slice(&self) -> (items: &[T])
        ensures
            items@ == self@,
    {
        self.props.as_slice()
    }

    /// Adds an element behind the others, unless the payload would then take
    /// more bytes than a 32-bit size can count: that is a bad property size,
    /// and the elements stay as they were.
    pub fn push(&mut self, item: T) -> (status: OSStatus)
        ensures
            Self::spec_fits(old(self)@.len() + 1) ==> status is Ok && final(self)@ == old(self)@.push(
                item,
            ),
            !Self::spec_fits(old(self)@.len() + 1) ==> final(self)@ == old(self)@ && (status matches Err(
                error,
            ) && error.spec_code() == AUDIO_HARDWARE_BAD_PROPERTY_SIZE_ERROR),
    {
        proof {
            use_type_invariant(&*self);
            T::layout_bounds();
        }
        let used: u64 = self.props.len() as u64 * T::size() as u64;
        if used + T::size() as u64 > u32::MAX as u64 {
            assert(!Self::spec_fits(self@.len() + 1)) by (nonlinear_arith)
                requires
                    self@.len() * T::spec_size() + T::spec_size() > u32::MAX,
            ;
            return Err(OSStatusError::hw_bad_property_size());
        }
        assert(Self::spec_fits(self@.len() + 1)) by (nonlinear_arith)
            requires
                self@.len() * T::spec_size() + T::spec_size() <= u32::MAX,
        ;
        let mut taken = Self::new();
        core::mem::swap(self, &mut taken);
        let mut props = taken.props;
        props.push(item);
        self.props = props;
        Ok(())
    }

    /// Removes every element.
    pub fn clear(&mut self)
        ensures
            final(self)@ == Seq::<T>::empty(),
    {
        self.props = Vec::new();
    }

    /// Fewer elements than fit, fit.
    proof fn lemma_fewer_fit(more: nat, fewer: nat)
        requires
            fewer <= more,
            more * T::spec_size() <= u32::MAX,
        ensures
            fewer * T::spec_size() <= u32::MAX,
    {
        let unit = T::spec_size();
        assert(fewer * unit <= more * unit) by (nonlinear_arith)
            requires
                fewer <= more,
        ;
    }

    /// Takes the last element off, if there is one.
    pub fn pop(&mut self) -> (item: Option<T>)
        ensures
            old(self)@.len() > 0 ==> item == Some(old(self)@.last()) && final(self)@ == old(
                self,
            )@.drop_last(),
            old(self)@.len() == 0 ==> item is None && final(self)@ == old(self)@,
    {
        proof {
            use_type_invariant(&*self);
        }
        let mut taken = Self::new();
        core::mem::swap(self, &mut taken);
        let mut props = taken.props;
        let item = props.pop();
        proof {
            Self::lemma_fewer_fit(old(self)@.len(), props@.len());
        }
        self.props = props;
        item
    }

    /// Takes the element at `index` out and moves those behind it up by one.
    /// Without an element at `index` nothing changes.
    pub fn remove(&mut self, index: usize) -> (item: Option<T>)
        ensures
            index < old(self)@.len() ==> item == Some(old(self)@[index as int]) && final(self)@
                == old(self)@.remove(index as int),
            index >= old(self)@.len() ==> item is None && final(self)@ == old(self)@,
    {
        proof {
            use_type_invariant(&*self);
        }
        if index >= self.props.len() {
            return None;
        }
        let mut taken = Self::new();
        core::mem::swap(self, &mut taken);
        let mut props = taken.props;
        let item = props.remove(index);
        proof {
            Self::lemma_fewer_fit(old(self)@.len(), props@.len());
        }
        self.props = props;
        Some(item)
    }

    /// Keeps the first `len` elements and drops the rest; with no more than
    /// `len` elements nothing changes.
    pub fn truncate(&mut self, len: usize)
        ensures
            len <= old(self)@.len() ==> final(self)@ == old(self)@.take(len as int),
            len > old(self)@.len() ==> final(self)@ == old(self)@,
    {
        proof {
            use_type_invariant(&*self);
        }
        let mut taken = Self::new();
        core::mem::swap(self, &mut taken);
        let mut props = taken.props;
        props.truncate(len);
        proof {
            Self::lemma_fewer_fit(old(self)@.len(), props@.len());
        }
        self.props = props;
    }

    /// Puts an element at `index` and moves those from there on back by one.
    ///
    /// An index beyond the end is an illegal operation, and a payload that
    /// would take more bytes than a 32-bit size can count is a bad property
    /// size; the elements then stay as they were.
    pub fn insert(&mut self, index: usize, item: T) -> (status: OSStatus)
        ensures
            index > old(self)@.len() ==> final(self)@ == old(self)@ && (status matches Err(error)
                && error.spec_code() == AUDIO_HARDWARE_ILLEGAL_OPERATION_ERROR),
            index <= old(self)@.len() && !Self::spec_fits(old(self)@.len() + 1) ==> final(self)@
                == old(self)@ && (status matches Err(error) && error.spec_code()
                == AUDIO_HARDWARE_BAD_PROPERTY_SIZE_ERROR),
            index <= old(self)@.len() && Self::spec_fits(old(self)@.len() + 1) ==> status is Ok
                && final(self)@ == old(self)@.insert(index as int, item),
    {
        proof {
            use_type_invariant(&*self);
            T::layout_bounds();
        }
        if index > self.props.len() {
            return Err(OSStatusError::hw_illegal_operation());
        }
        let used: u64 = self.props.len() as u64 * T::size() as u64;
        if used + T::size() as u64 > u32::MAX as u64 {
            assert(!Self::spec_fits(self@.len() + 1)) by (nonlinear_arith)
                requires
                    self@.len() * T::spec_size() + T::spec_size() > u32::MAX,
            ;
            return Err(OSStatusError::hw_bad_property_size());
        }
        assert(Self::spec_fits(self@.len() + 1)) by (nonlinear_arith)
            requires
                self@.len() * T::spec_size() + T::spec_size() <= u32::MAX,
        ;
        let mut taken = Self::new();
        core::mem::swap(self, &mut taken);
        let mut props = taken.props;
        props.insert(index, item);
        self.props = props;
        Ok(())
    }
}

impl<T: PropertyValue + Clone, const SEL: u32, const MUTABLE_PROP: bool> Clone for ArrayProp<
    T,
    SEL,
    MUTABLE_PROP,
> {
    /// A property with a clone of every element, in the same order.
    fn clone(&self) -> (copy: Self)
        ensures
            copy@.len() == self@.len(),
            forall|i: int| 0 <= i < self@.len() ==> cloned::<T>(#[trigger] self@[i], copy@[i]),
    {
        proof {
            use_type_invariant(self);
        }
        ArrayProp { props: self.props.clone() }
    }
}

impl<T: PropertyValue, const SEL: u32, const MUTABLE_PROP: bool> core::ops::Deref for ArrayProp<
    T,
    SEL,
    MUTABLE_PROP,
> {
    type Target = Vec<T>;

    /// The elements in their order.
    fn deref(&self) -> (items: &Vec<T>)
        ensures
            items@ == self@,
    {
        &self.props
    }
}

impl<T: PropertyValue, const SEL: u32, const MUTABLE_PROP: bool> Default for ArrayProp<
    T,
    SEL,
    MUTABLE_PROP,
> {
    fn default() -> (property: Self)
        ensures
            property@ == Seq::<T>::empty(),
    {
        Self::new()
    }
}

/// A payload of `count` whole elements holds `count` elements, and `get`
/// hands over as many of them as fit into the capacity.
pub proof fn lemma_whole_elements(property: PropertyData, count: nat, capacity: nat)
    requires
        1 <= property.unit,
        property.bytes.len() == count * property.unit,
    ensures
        property.count() == count,
        transferred_count(property, capacity) == (if capacity / property.unit <= count {
            capacity / property.unit
        } else {
            count
        }),
        transferred_count(property, capacity) <= count,
        transferred_len(property, capacity) <= capacity,
        transferred_len(property, capacity) <= property.bytes.len(),
{
    let unit = property.unit as int;
    let room = capacity as int / unit;
    assert((count * unit) / unit == count) by (nonlinear_arith)
        requires
            1 <= unit,
    ;
    assert(0 <= room && room * unit <= capacity) by (nonlinear_arith)
        requires
            1 <= unit,
            0 <= capacity,
            room == capacity as int / unit,
    ;
    let moved = transferred_count(property, capacity) as int;
    assert(moved * unit <= room * unit && moved * unit <= count * unit) by (nonlinear_arith)
        requires
            0 <= moved <= room,
            moved <= count,
            1 <= unit,
    ;
}

impl<T: PropertyValue, const SEL: u32, const MUTABLE_PROP: bool> RawProperty for ArrayProp<
    T,
    SEL,
    MUTABLE_PROP,
> {
    open spec fn data(&self) -> PropertyData {
        PropertyData {
            selector: PropertySelector(SEL),
            settable: MUTABLE_PROP,
            array: true,
            unit: T::spec_size(),
            align: T::spec_align(),
            bytes: encode_all(self@),
        }
    }

    fn selector(&self) -> (selector: PropertySelector) {
        PropertySelector(SEL)
    }

    #[inline]
    fn byte_size(&self) -> (size: u32) {
        proof {
            use_type_invariant(self);
            lemma_encode_all_len(self@);
        }
        let total: u64 = self.props.len() as u64 * T::size() as u64;
        total as u32
    }

    #[inline]
    fn is_mut(&self) -> (settable: bool) {
        MUTABLE_PROP
    }

    /// Puts one element in the place of the whole sequence. A `set` takes
    /// exactly one element: a span of any other size, several elements'
    /// included, is a bad property size.
    fn set(&mut self, address: usize, data: &[u8]) -> (status: OSStatus)
        ensures
            status is Ok ==> final(self)@ == seq![T::spec_decode(data@)],
            status is Err ==> final(self)@ == old(self)@,
    {
        proof {
            T::layout_bounds();
        }
        if address == 0 {
            return Err(OSStatusError::hw_illegal_operation());
        }
        if data.len() != T::size() as usize {
            return Err(OSStatusError::hw_bad_property_size());
        }
        if address % T::align() != 0 {
            return Err(OSStatusError::hw_bad_object());
        }
        if !MUTABLE_PROP {
            return Err(OSStatusError::hw_unspecified());
        }
        let item = T::decode(data, 0);
        let mut props: Vec<T> = Vec::new();
        props.push(item);
        proof {
            assert(data@.subrange(0, T::spec_size() as int) == data@);
            T::encode_of_decode(data@);
            assert(props@ == seq![item]);
            assert(props@.drop_last() == Seq::<T>::empty());
            assert(props@.last() == item);
            assert(encode_all(Seq::<T>::empty()) == Seq::<u8>::empty());
            assert(encode_all(props@) == Seq::<u8>::empty() + item.spec_encode());
            assert(encode_all(props@) == data@);
            assert(props@.len() * T::spec_size() == T::spec_size()) by (nonlinear_arith)
                requires
                    props@.len() == 1,
            ;
        }
        self.props = props;
        Ok(())
    }

    /// Hands over as many whole elements as fit, from the first on, and
    /// reports the bytes that they take. That more elements were there is not
    /// an error; only a destination without room for one element is.
    fn get(&self, address: usize, data_out: &mut [u8], data_len_out: Option<&mut u32>) -> (status:
        OSStatus)
        ensures
            status is Ok ==> {
                let room = old(data_out)@.len() / T::spec_size();
                let count = if room <= self@.len() {
                    room
                } else {
                    self@.len()
                };
                &&& final(data_out)@ == splice(
                    old(data_out)@,
                    0,
                    encode_all(self@.take(count as int)),
                )
                &&& data_len_out matches Some(len)
                &&& *final(len) == count * T::spec_size()
            },
    {
        proof {
            use_type_invariant(self);
            T::layout_bounds();
            lemma_encode_all_len(self@);
            lemma_whole_elements(self.data(), self@.len(), old(data_out)@.len());
        }
        let len_out = match data_len_out {
            Some(len_out) => len_out,
            None => {
                return Err(OSStatusError::hw_illegal_operation());
            },
        };
        if address == 0 {
            return Err(OSStatusError::hw_illegal_operation());
        }
        let unit = T::size() as usize;
        let capacity = data_out.len();
        if capacity < unit {
            return Err(OSStatusError::hw_bad_property_size());
        }
        if address % T::align() != 0 {
            return Err(OSStatusError::hw_bad_object());
        }
        let room = capacity / unit;
        let count = if room <= self.props.len() {
            room
        } else {
            self.props.len()
        };
        assert(count == transferred_count(self.data(), capacity as nat));
        let mut i: usize = 0;
        let mut offset: usize = 0;
        while i < count
            invariant
                i <= count,
                count <= self.props@.len(),
                unit == T::spec_size(),
                1 <= unit,
                offset == i * unit,
                count * unit <= capacity,
                capacity == data_out@.len(),
                capacity == old(data_out)@.len(),
                data_out@ == splice(old(data_out)@, 0, encode_all(self.props@.take(i as int))),
            decreases count - i,
        {
            assert((i + 1) * unit <= count * unit) by (nonlinear_arith)
                requires
                    i < count,
                    0 <= unit,
            ;
            assert((i + 1) * unit == i * unit + unit) by (nonlinear_arith);
            let ghost before = data_out@;
            self.props[i].encode(data_out, offset);
            proof {
                let done = self.props@.take(i as int);
                let next = self.props@.take(i + 1);
                lemma_encode_all_len(done);
                self.props@[i as int].decode_of_encode();
                assert(next.drop_last() == done);
                assert(next.last() == self.props@[i as int]);
                assert(data_out@ == splice(old(data_out)@, 0, encode_all(next)));
            }
            i = i + 1;
            offset = offset + unit;
        }
        proof {
            lemma_encode_all_take(self@, count as int);
        }
        *len_out = offset as u32;
        Ok(())
    }
}

} // verus!

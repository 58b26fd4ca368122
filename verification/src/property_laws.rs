//! What holds of every property, whatever it stores and whatever it is handed.
//!
//! Each statement is about the functions by which `set` and `get` are
//! specified, so it holds of every call of them.
use crate::os_err::{
    AUDIO_HARDWARE_BAD_OBJECT_ERROR, AUDIO_HARDWARE_BAD_PROPERTY_SIZE_ERROR,
    AUDIO_HARDWARE_ILLEGAL_OPERATION_ERROR, AUDIO_HARDWARE_UNSPECIFIED_ERROR,
};
use crate::property::{
    encode_all, get_refusal, lemma_encode_all_len, lemma_encode_all_take, lemma_one_element,
    lemma_whole_elements, set_refusal, transferred_count, transferred_len, ArrayProp, Prop,
    PropertyData, RawProperty,
};
use crate::value::PropertyValue;
use vstd::prelude::*;

verus! {

/// A value that was set is the value that is read back, and the size of the
/// property is the same before and after.
///
/// `before` is a settable single-value property, `after` what `set` leaves of
/// it when handed the bytes of `value` in an aligned span of the right size.
/// Then `after` stores `value`, and a `get` into any aligned destination that
/// holds one value writes exactly the bytes of `value` and reports their number.
pub proof fn scalar_set_then_get<T: PropertyValue, const SEL: u32>(
    before: Prop<T, SEL, true>,
    after: Prop<T, SEL, true>,
    value: T,
    address: usize,
    out_address: usize,
    capacity: nat,
)
    requires
        address != 0,
        address as nat % T::spec_align() == 0,
        after.data() == before.data().with_bytes(value.spec_encode()),
        out_address != 0,
        out_address as nat % T::spec_align() == 0,
        T::spec_size() <= capacity,
    ensures
        set_refusal(before.data(), address, value.spec_encode().len()) is None,
        after.0 == value,
        after.data().bytes.len() == before.data().bytes.len(),
        get_refusal(after.data(), out_address, capacity, true) is None,
        transferred_len(after.data(), capacity) == T::spec_size(),
        after.data().bytes.take(transferred_len(after.data(), capacity) as int)
            == value.spec_encode(),
{
    T::layout_bounds();
    value.decode_of_encode();
    before.0.decode_of_encode();
    after.0.decode_of_encode();
    lemma_one_element(after.data(), capacity);
    assert(after.data().bytes.take(T::spec_size() as int) == after.data().bytes);
}

/// Reading an array hands over a prefix: of `k` stored elements and room for
/// `c` whole elements, the first `min(c, k)` in their order, and the length
/// reported is that number times the size of an element.
pub proof fn array_get_is_prefix<T: PropertyValue, const SEL: u32, const MUTABLE_PROP: bool>(
    property: ArrayProp<T, SEL, MUTABLE_PROP>,
    capacity: nat,
)
    ensures
        ({
            let k = property@.len();
            let c = capacity / T::spec_size();
            let moved = if c <= k {
                c
            } else {
                k
            };
            &&& transferred_count(property.data(), capacity) == moved
            &&& transferred_len(property.data(), capacity) == moved * T::spec_size()
            &&& transferred_len(property.data(), capacity) <= capacity
            &&& property.data().bytes.take(transferred_len(property.data(), capacity) as int)
                == encode_all(property@.take(moved as int))
        }),
{
    T::layout_bounds();
    lemma_encode_all_len(property@);
    lemma_whole_elements(property.data(), property@.len(), capacity);
    let moved = transferred_count(property.data(), capacity);
    lemma_encode_all_take(property@, moved as int);
}

/// An element that was set is the one element that is read back.
///
/// `after` is what `set` leaves of a settable array when handed the bytes of
/// `item` in an aligned span of one element's size. It then holds `item` and
/// nothing else, and a `get` into an aligned destination with room for `c`
/// elements, `c` at least one, writes the bytes of `item` and reports one
/// element's size.
pub proof fn array_set_then_get<T: PropertyValue, const SEL: u32>(
    before: ArrayProp<T, SEL, true>,
    after: ArrayProp<T, SEL, true>,
    item: T,
    address: usize,
    out_address: usize,
    capacity: nat,
)
    requires
        address != 0,
        address as nat % T::spec_align() == 0,
        after@ == seq![item],
        out_address != 0,
        out_address as nat % T::spec_align() == 0,
        T::spec_size() <= capacity,
    ensures
        set_refusal(before.data(), address, item.spec_encode().len()) is None,
        after.data() == before.data().with_bytes(item.spec_encode()),
        get_refusal(after.data(), out_address, capacity, true) is None,
        transferred_count(after.data(), capacity) == 1,
        transferred_len(after.data(), capacity) == T::spec_size(),
        after.data().bytes.take(transferred_len(after.data(), capacity) as int)
            == item.spec_encode(),
{
    T::layout_bounds();
    item.decode_of_encode();
    assert(after@.drop_last() == Seq::<T>::empty());
    assert(after@.last() == item);
    assert(encode_all(Seq::<T>::empty()) == Seq::<u8>::empty());
    assert(encode_all(after@) == Seq::<u8>::empty() + item.spec_encode());
    assert(encode_all(after@) == item.spec_encode());
    lemma_one_element(after.data(), capacity);
    assert(after.data().bytes.take(T::spec_size() as int) == after.data().bytes);
}

/// A property that is not settable refuses every `set`: a null span as an
/// illegal operation, a span that is otherwise in order as unspecified. (A
/// span that is misaligned or of the wrong size is refused for that.)
pub proof fn set_of_fixed_property_is_refused(property: PropertyData, address: usize, len: nat)
    requires
        !property.settable,
    ensures
        set_refusal(property, address, len) is Some,
        address == 0 ==> set_refusal(property, address, len) == Some(
            AUDIO_HARDWARE_ILLEGAL_OPERATION_ERROR,
        ),
        address != 0 && address as nat % property.align == 0 && len == property.unit
            ==> set_refusal(property, address, len) == Some(AUDIO_HARDWARE_UNSPECIFIED_ERROR),
{
}

/// A misaligned span is refused as a bad object: by `set` of a single value
/// whatever its size, by `set` of an array when the size is right, and by
/// `get` when there is a place for the length and room for one element.
pub proof fn misaligned_span_is_bad_object(
    property: PropertyData,
    address: usize,
    len: nat,
    has_len_out: bool,
)
    requires
        address != 0,
        address as nat % property.align != 0,
    ensures
        !property.array ==> set_refusal(property, address, len) == Some(
            AUDIO_HARDWARE_BAD_OBJECT_ERROR,
        ),
        len == property.unit ==> set_refusal(property, address, len) == Some(
            AUDIO_HARDWARE_BAD_OBJECT_ERROR,
        ),
        has_len_out && property.unit <= len ==> get_refusal(property, address, len, has_len_out)
            == Some(AUDIO_HARDWARE_BAD_OBJECT_ERROR),
{
}

/// A `get` into less room than one element takes is refused as a bad
/// property size; for a single value that is every capacity below its size.
pub proof fn small_destination_is_bad_size(property: PropertyData, address: usize, capacity: nat)
    requires
        address != 0,
        capacity < property.unit,
    ensures
        get_refusal(property, address, capacity, true) == Some(
            AUDIO_HARDWARE_BAD_PROPERTY_SIZE_ERROR,
        ),
        !property.array && property.bytes.len() == property.unit ==> capacity
            < property.bytes.len(),
{
}

} // verus!

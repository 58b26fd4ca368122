//! The properties that every audio object has, and how one is found by its
//! selector.
use crate::os_err::{
    OSResult, OSStatus, OSStatusError, AUDIO_HARDWARE_UNKNOWN_PROPERTY_ERROR,
};
use crate::property::{
    get_refusal, set_refusal, transferred_len, ArrayProp, Prop, PropertyData, PropertySelector,
    RawProperty,
};
use crate::value::{splice, CFStringHandle};
use vstd::prelude::*;

verus! {

/// The identifier of a class of audio objects.
pub type AudioClassID = u32;

/// The identifier of one audio object.
pub type AudioObjectID = u32;

/// `'bcls'`: the class that the object's class is derived from.
pub const AUDIO_OBJECT_PROPERTY_BASE_CLASS: u32 = 0x6263_6C73;

/// `'clas'`: the class of the object.
pub const AUDIO_OBJECT_PROPERTY_CLASS: u32 = 0x636C_6173;

/// `'stdv'`: the object that owns the object.
pub const AUDIO_OBJECT_PROPERTY_OWNER: u32 = 0x7374_6476;

/// `'lnam'`: the name of the object for people to read.
pub const AUDIO_OBJECT_PROPERTY_NAME: u32 = 0x6C6E_616D;

/// `'ownd'`: the objects that the object owns.
pub const AUDIO_OBJECT_PROPERTY_OWNED_OBJECTS: u32 = 0x6F77_6E64;

/// The properties that every audio object has. None of them can be set by the
/// host.
#[derive(Debug)]
pub struct AudioObjectBase {
    pub base_class: Prop<AudioClassID, AUDIO_OBJECT_PROPERTY_BASE_CLASS, false>,
    pub class: Prop<AudioClassID, AUDIO_OBJECT_PROPERTY_CLASS, false>,
    pub owner: Prop<AudioObjectID, AUDIO_OBJECT_PROPERTY_OWNER, false>,
    pub owned_objects: ArrayProp<AudioObjectID, AUDIO_OBJECT_PROPERTY_OWNED_OBJECTS, false>,
    pub name: Prop<CFStringHandle, AUDIO_OBJECT_PROPERTY_NAME, false>,
}

/// One property of an audio object, to be read.
pub enum ObjectProperty<'a> {
    BaseClass(&'a Prop<AudioClassID, AUDIO_OBJECT_PROPERTY_BASE_CLASS, false>),
    Class(&'a Prop<AudioClassID, AUDIO_OBJECT_PROPERTY_CLASS, false>),
    Owner(&'a Prop<AudioObjectID, AUDIO_OBJECT_PROPERTY_OWNER, false>),
    OwnedObjects(&'a ArrayProp<AudioObjectID, AUDIO_OBJECT_PROPERTY_OWNED_OBJECTS, false>),
    Name(&'a Prop<CFStringHandle, AUDIO_OBJECT_PROPERTY_NAME, false>),
}

/// One property of an audio object, to be read or changed.
pub enum ObjectPropertyMut<'a> {
    BaseClass(&'a mut Prop<AudioClassID, AUDIO_OBJECT_PROPERTY_BASE_CLASS, false>),
    Class(&'a mut Prop<AudioClassID, AUDIO_OBJECT_PROPERTY_CLASS, false>),
    Owner(&'a mut Prop<AudioObjectID, AUDIO_OBJECT_PROPERTY_OWNER, false>),
    OwnedObjects(&'a mut ArrayProp<AudioObjectID, AUDIO_OBJECT_PROPERTY_OWNED_OBJECTS, false>),
    Name(&'a mut Prop<CFStringHandle, AUDIO_OBJECT_PROPERTY_NAME, false>),
}

impl<'a> ObjectProperty<'a> {
    /// What the HAL can observe of the property.
    pub open spec fn data(self) -> PropertyData {
        match self {
            ObjectProperty::BaseClass(p) => p.data(),
            ObjectProperty::Class(p) => p.data(),
            ObjectProperty::Owner(p) => p.data(),
            ObjectProperty::OwnedObjects(p) => p.data(),
            ObjectProperty::Name(p) => p.data(),
        }
    }

    pub fn selector(&self) -> (selector: PropertySelector)
        ensures
            selector == self.data().selector,
    {
        match self {
            ObjectProperty::BaseClass(p) => p.selector(),
            ObjectProperty::Class(p) => p.selector(),
            ObjectProperty::Owner(p) => p.selector(),
            ObjectProperty::OwnedObjects(p) => p.selector(),
            ObjectProperty::Name(p) => p.selector(),
        }
    }

    pub fn byte_size(&self) -> (size: u32)
        ensures
            size == self.data().bytes.len(),
    {
        match self {
            ObjectProperty::BaseClass(p) => p.byte_size(),
            ObjectProperty::Class(p) => p.byte_size(),
            ObjectProperty::Owner(p) => p.byte_size(),
            ObjectProperty::OwnedObjects(p) => p.byte_size(),
            ObjectProperty::Name(p) => p.byte_size(),
        }
    }

    pub fn is_mut(&self) -> (settable: bool)
        ensures
            settable == self.data().settable,
    {
        match self {
            ObjectProperty::BaseClass(p) => p.is_mut(),
            ObjectProperty::Class(p) => p.is_mut(),
            ObjectProperty::Owner(p) => p.is_mut(),
            ObjectProperty::OwnedObjects(p) => p.is_mut(),
            ObjectProperty::Name(p) => p.is_mut(),
        }
    }

    /// Copies the payload to `data_out`, as `RawProperty::get` does.
    pub fn get(&self, address: usize, data_out: &mut [u8], data_len_out: Option<&mut u32>) -> (status:
        OSStatus)
        ensures
            match get_refusal(self.data(), address, old(data_out)@.len(), data_len_out is Some) {
                Some(code) => {
                    &&& status matches Err(error)
                    &&& error.spec_code() == code
                    &&& final(data_out)@ == old(data_out)@
                    &&& data_len_out matches Some(len) ==> *final(len) == *len
                },
                None => {
                    &&& status is Ok
                    &&& final(data_out)@ == splice(
                        old(data_out)@,
                        0,
                        self.data().bytes.take(
                            transferred_len(self.data(), old(data_out)@.len()) as int,
                        ),
                    )
                    &&& data_len_out matches Some(len)
                    &&& *final(len) == transferred_len(self.data(), old(data_out)@.len())
                },
            },
    {
        match self {
            ObjectProperty::BaseClass(p) => p.get(address, data_out, data_len_out),
            ObjectProperty::Class(p) => p.get(address, data_out, data_len_out),
            ObjectProperty::Owner(p) => p.get(address, data_out, data_len_out),
            ObjectProperty::OwnedObjects(p) => p.get(address, data_out, data_len_out),
            ObjectProperty::Name(p) => p.get(address, data_out, data_len_out),
        }
    }
}

impl<'a> ObjectPropertyMut<'a> {
    /// What the HAL can observe of the property as it is now.
    pub open spec fn data(self) -> PropertyData {
        match self {
            ObjectPropertyMut::BaseClass(p) => p.data(),
            ObjectPropertyMut::Class(p) => p.data(),
            ObjectPropertyMut::Owner(p) => p.data(),
            ObjectPropertyMut::OwnedObjects(p) => p.data(),
            ObjectPropertyMut::Name(p) => p.data(),
        }
    }

    pub fn selector(&self) -> (selector: PropertySelector)
        ensures
            selector == self.data().selector,
    {
        match self {
            ObjectPropertyMut::BaseClass(p) => p.selector(),
            ObjectPropertyMut::Class(p) => p.selector(),
            ObjectPropertyMut::Owner(p) => p.selector(),
            ObjectPropertyMut::OwnedObjects(p) => p.selector(),
            ObjectPropertyMut::Name(p) => p.selector(),
        }
    }

    pub fn byte_size(&self) -> (size: u32)
        ensures
            size == self.data().bytes.len(),
    {
        match self {
            ObjectPropertyMut::BaseClass(p) => p.byte_size(),
            ObjectPropertyMut::Class(p) => p.byte_size(),
            ObjectPropertyMut::Owner(p) => p.byte_size(),
            ObjectPropertyMut::OwnedObjects(p) => p.byte_size(),
            ObjectPropertyMut::Name(p) => p.byte_size(),
        }
    }

    pub fn is_mut(&self) -> (settable: bool)
        ensures
            settable == self.data().settable,
    {
        match self {
            ObjectPropertyMut::BaseClass(p) => p.is_mut(),
            ObjectPropertyMut::Class(p) => p.is_mut(),
            ObjectPropertyMut::Owner(p) => p.is_mut(),
            ObjectPropertyMut::OwnedObjects(p) => p.is_mut(),
            ObjectPropertyMut::Name(p) => p.is_mut(),
        }
    }

    /// Copies the payload to `data_out`, as `RawProperty::get` does.
    pub fn get(&self, address: usize, data_out: &mut [u8], data_len_out: Option<&mut u32>) -> (status:
        OSStatus)
        ensures
            match get_refusal(self.data(), address, old(data_out)@.len(), data_len_out is Some) {
                Some(code) => {
                    &&& status matches Err(error)
                    &&& error.spec_code() == code
                    &&& final(data_out)@ == old(data_out)@
                    &&& data_len_out matches Some(len) ==> *final(len) == *len
                },
                None => {
                    &&& status is Ok
                    &&& final(data_out)@ == splice(
                        old(data_out)@,
                        0,
                        self.data().bytes.take(
                            transferred_len(self.data(), old(data_out)@.len()) as int,
                        ),
                    )
                    &&& data_len_out matches Some(len)
                    &&& *final(len) == transferred_len(self.data(), old(data_out)@.len())
                },
            },
    {
        match self {
            ObjectPropertyMut::BaseClass(p) => p.get(address, data_out, data_len_out),
            ObjectPropertyMut::Class(p) => p.get(address, data_out, data_len_out),
            ObjectPropertyMut::Owner(p) => p.get(address, data_out, data_len_out),
            ObjectPropertyMut::OwnedObjects(p) => p.get(address, data_out, data_len_out),
            ObjectPropertyMut::Name(p) => p.get(address, data_out, data_len_out),
        }
    }

    /// Replaces the payload by the bytes of `data`, as `RawProperty::set`
    /// does. The property is used up: look it up again to go on.
    pub fn set(self, address: usize, data: &[u8]) -> (status: OSStatus)
        ensures
            ({
                let after = match self {
                    ObjectPropertyMut::BaseClass(p) => final(p).data(),
                    ObjectPropertyMut::Class(p) => final(p).data(),
                    ObjectPropertyMut::Owner(p) => final(p).data(),
                    ObjectPropertyMut::OwnedObjects(p) => final(p).data(),
                    ObjectPropertyMut::Name(p) => final(p).data(),
                };
                match set_refusal(self.data(), address, data@.len()) {
                    Some(code) => {
                        &&& status matches Err(error)
                        &&& error.spec_code() == code
                        &&& after == self.data()
                    },
                    None => {
                        &&& status is Ok
                        &&& after == self.data().with_bytes(data@)
                    },
                }
            }),
    {
        match self {
            ObjectPropertyMut::BaseClass(p) => p.set(address, data),
            ObjectPropertyMut::Class(p) => p.set(address, data),
            ObjectPropertyMut::Owner(p) => p.set(address, data),
            ObjectPropertyMut::OwnedObjects(p) => p.set(address, data),
            ObjectPropertyMut::Name(p) => p.set(address, data),
        }
    }
}

/// A set of properties of its own, each found under its selector. A selector
/// that the set does not know is not an error: there is then no property.
pub trait HasProperties: Sized {
    /// The property that the set holds under the selector, if any.
    spec fn object_property(&self, sel: PropertySelector) -> Option<PropertyData>;

    /// What the set holds under a selector reports that selector as its own.
    proof fn selector_is_kept(&self, sel: PropertySelector)
        ensures
            self.object_property(sel) matches Some(data) ==> data.selector == sel,
    ;

    /// The property under the selector, to be read.
    fn get_object_property(&self, sel: PropertySelector) -> (property: Option<ObjectProperty<'_>>)
        ensures
            property is Some <==> self.object_property(sel) is Some,
            property matches Some(p) ==> self.object_property(sel) == Some(p.data()),
            property matches Some(p) ==> p.data().selector == sel,
    ;

    /// The property under the selector, to be changed. Whatever is done to it
    /// is done to the property under that selector, and to no other.
    fn get_object_property_mut(&mut self, sel: PropertySelector) -> (property: Option<
        ObjectPropertyMut<'_>,
    >)
        ensures
            property is Some <==> old(self).object_property(sel) is Some,
            property is None ==> *final(self) == *old(self),
            property matches Some(p) ==> {
                let after = match p {
                    ObjectPropertyMut::BaseClass(q) => final(q).data(),
                    ObjectPropertyMut::Class(q) => final(q).data(),
                    ObjectPropertyMut::Owner(q) => final(q).data(),
                    ObjectPropertyMut::OwnedObjects(q) => final(q).data(),
                    ObjectPropertyMut::Name(q) => final(q).data(),
                };
                &&& old(self).object_property(sel) == Some(p.data())
                &&& p.data().selector == sel
                &&& final(self).object_property(sel) == Some(after)
                &&& forall|other: PropertySelector|
                    other != sel ==> #[trigger] final(self).object_property(other) == old(
                        self,
                    ).object_property(other)
            },
    ;
}

impl HasProperties for AudioObjectBase {
    open spec fn object_property(&self, sel: PropertySelector) -> Option<PropertyData> {
        if sel.0 == AUDIO_OBJECT_PROPERTY_BASE_CLASS {
            Some(self.base_class.data())
        } else if sel.0 == AUDIO_OBJECT_PROPERTY_CLASS {
            Some(self.class.data())
        } else if sel.0 == AUDIO_OBJECT_PROPERTY_NAME {
            Some(self.name.data())
        } else if sel.0 == AUDIO_OBJECT_PROPERTY_OWNED_OBJECTS {
            Some(self.owned_objects.data())
        } else if sel.0 == AUDIO_OBJECT_PROPERTY_OWNER {
            Some(self.owner.data())
        } else {
            None
        }
    }

    proof fn selector_is_kept(&self, sel: PropertySelector) {
    }

    fn get_object_property(&self, sel: PropertySelector) -> (property: Option<ObjectProperty<'_>>) {
        if sel.0 == AUDIO_OBJECT_PROPERTY_BASE_CLASS {
            Some(ObjectProperty::BaseClass(&self.base_class))
        } else if sel.0 == AUDIO_OBJECT_PROPERTY_CLASS {
            Some(ObjectProperty::Class(&self.class))
        } else if sel.0 == AUDIO_OBJECT_PROPERTY_NAME {
            Some(ObjectProperty::Name(&self.name))
        } else if sel.0 == AUDIO_OBJECT_PROPERTY_OWNED_OBJECTS {
            Some(ObjectProperty::OwnedObjects(&self.owned_objects))
        } else if sel.0 == AUDIO_OBJECT_PROPERTY_OWNER {
            Some(ObjectProperty::Owner(&self.owner))
        } else {
            None
        }
    }

    fn get_object_property_mut(&mut self, sel: PropertySelector) -> (property: Option<
        ObjectPropertyMut<'_>,
    >) {
        if sel.0 == AUDIO_OBJECT_PROPERTY_BASE_CLASS {
            Some(ObjectPropertyMut::BaseClass(&mut self.base_class))
        } else if sel.0 == AUDIO_OBJECT_PROPERTY_CLASS {
            Some(ObjectPropertyMut::Class(&mut self.class))
        } else if sel.0 == AUDIO_OBJECT_PROPERTY_NAME {
            Some(ObjectPropertyMut::Name(&mut self.name))
        } else if sel.0 == AUDIO_OBJECT_PROPERTY_OWNED_OBJECTS {
            Some(ObjectPropertyMut::OwnedObjects(&mut self.owned_objects))
        } else if sel.0 == AUDIO_OBJECT_PROPERTY_OWNER {
            Some(ObjectPropertyMut::Owner(&mut self.owner))
        } else {
            None
        }
    }
}

impl AudioObjectBase {
    /// The properties of an object of the given class, owned by `owner` and
    /// called `name`, that owns no objects yet.
    pub fn new(
        base_class: AudioClassID,
        class: AudioClassID,
        owner: AudioObjectID,
        name: CFStringHandle,
    ) -> (base: Self)
        ensures
            base.base_class.0 == base_class,
            base.class.0 == class,
            base.owner.0 == owner,
            base.owned_objects@ == Seq::<AudioObjectID>::empty(),
            base.name.0 == name,
    {
        AudioObjectBase {
            base_class: Prop(base_class),
            class: Prop(class),
            owner: Prop(owner),
            owned_objects: ArrayProp::new(),
            name: Prop(name),
        }
    }
}

/// A node of the tree of audio objects: its own properties, and the objects
/// that it owns, in the order in which they were declared.
pub struct AudioObject<P> {
    pub properties: P,
    pub subobjects: Vec<AudioObject<P>>,
}

impl<P: HasProperties> AudioObject<P> {
    /// The property that the tree holds under the selector: the object's own
    /// if it has one, else the first that is found in the objects that it
    /// owns, each searched in the same way, in their order.
    pub open spec fn property(&self, sel: PropertySelector) -> Option<PropertyData>
        decreases self,
    {
        match self.properties.object_property(sel) {
            Some(data) => Some(data),
            None => Self::first_property(self.subobjects@, sel),
        }
    }

    /// The first property under the selector in a sequence of trees.
    pub open spec fn first_property(objects: Seq<AudioObject<P>>, sel: PropertySelector) -> Option<
        PropertyData,
    >
        decreases objects,
    {
        if objects.len() == 0 {
            None
        } else {
            match objects[0].property(sel) {
                Some(data) => Some(data),
                None => Self::first_property(objects.drop_first(), sel),
            }
        }
    }

    /// An object with the given properties that owns no objects.
    pub fn new(properties: P) -> (object: Self)
        ensures
            object.properties == properties,
            object.subobjects@ == Seq::<AudioObject<P>>::empty(),
    {
        AudioObject { properties, subobjects: Vec::new() }
    }

    /// The objects that the object owns.
    pub fn subobjects(&self) -> (objects: &[AudioObject<P>])
        ensures
            objects@ == self.subobjects@,
    {
        self.subobjects.as_slice()
    }

    /// The objects that the object owns, to be changed.
    pub fn subobjects_mut(&mut self) -> (objects: &mut Vec<AudioObject<P>>)
        ensures
            *objects == old(self).subobjects,
            final(self).subobjects == *final(objects),
            final(self).properties == old(self).properties,
    {
        &mut self.subobjects
    }

    /// Looks a property up by its selector, in the object and then in the
    /// objects that it owns.
    pub fn get_property(&self, sel: PropertySelector) -> (property: Option<ObjectProperty<'_>>)
        ensures
            property is Some <==> self.property(sel) is Some,
            property matches Some(p) ==> self.property(sel) == Some(p.data()),
            property matches Some(p) ==> p.data().selector == sel,
        decreases self,
    {
        match self.properties.get_object_property(sel) {
            Some(prop) => {
                return Some(prop);
            },
            None => {},
        }
        assert(self.subobjects@.skip(0) == self.subobjects@);
        let mut i: usize = 0;
        while i < self.subobjects.len()
            invariant
                i <= self.subobjects.len(),
                self.properties.object_property(sel) is None,
                Self::first_property(self.subobjects@, sel) == Self::first_property(
                    self.subobjects@.skip(i as int),
                    sel,
                ),
            decreases self.subobjects.len() - i,
        {
            let found = self.subobjects[i].get_property(sel);
            proof {
                let rest = self.subobjects@.skip(i as int);
                assert(rest[0] == self.subobjects@[i as int]);
                assert(rest.drop_first() == self.subobjects@.skip(i + 1));
            }
            if found.is_some() {
                return found;
            }
            i = i + 1;
        }
        assert(self.subobjects@.skip(i as int).len() == 0);
        None
    }

    /// Where none of the first `i` trees holds the selector, the first
    /// property is the one that is found from tree `i` on.
    pub proof fn lemma_first_property_skips(
        objects: Seq<AudioObject<P>>,
        sel: PropertySelector,
        i: int,
    )
        requires
            0 <= i <= objects.len(),
            forall|k: int| 0 <= k < i ==> (#[trigger] objects[k]).property(sel) is None,
        ensures
            Self::first_property(objects, sel) == Self::first_property(objects.skip(i), sel),
        decreases i,
    {
        if i == 0 {
            assert(objects.skip(0) == objects);
        } else {
            Self::lemma_first_property_skips(objects, sel, i - 1);
            let rest = objects.skip(i - 1);
            assert(rest[0] == objects[i - 1]);
            assert(rest.drop_first() == objects.skip(i));
        }
    }

    /// Trees that hold the same under a selector, one by one, hold the same
    /// first property under it.
    pub proof fn lemma_first_property_same(
        before: Seq<AudioObject<P>>,
        after: Seq<AudioObject<P>>,
        sel: PropertySelector,
    )
        requires
            before.len() == after.len(),
            forall|k: int|
                0 <= k < before.len() ==> (#[trigger] after[k]).property(sel) == before[k].property(
                    sel,
                ),
        ensures
            Self::first_property(after, sel) == Self::first_property(before, sel),
        decreases before.len(),
    {
        if before.len() > 0 {
            assert(after[0].property(sel) == before[0].property(sel));
            assert forall|k: int| 0 <= k < before.drop_first().len() implies (
            #[trigger] after.drop_first()[k]).property(sel) == before.drop_first()[k].property(
                sel,
            ) by {
                assert(after.drop_first()[k] == after[k + 1]);
                assert(before.drop_first()[k] == before[k + 1]);
            }
            Self::lemma_first_property_same(before.drop_first(), after.drop_first(), sel);
        }
    }

    /// The number of levels of the tree.
    pub open spec fn height(&self) -> nat
        decreases self,
    {
        1 + Self::max_height(self.subobjects@)
    }

    /// The number of levels of the highest of the trees.
    pub open spec fn max_height(objects: Seq<AudioObject<P>>) -> nat
        decreases objects,
    {
        if objects.len() == 0 {
            0
        } else {
            let first = objects[0].height();
            let rest = Self::max_height(objects.drop_first());
            if first >= rest {
                first
            } else {
                rest
            }
        }
    }

    /// No tree of a sequence is higher than the highest.
    pub proof fn lemma_max_height(objects: Seq<AudioObject<P>>, i: int)
        requires
            0 <= i < objects.len(),
        ensures
            objects[i].height() <= Self::max_height(objects),
        decreases i,
    {
        if i > 0 {
            Self::lemma_max_height(objects.drop_first(), i - 1);
            assert(objects.drop_first()[i - 1] == objects[i]);
        }
    }

    /// Whatever a tree holds under a selector reports that selector as its
    /// own.
    pub proof fn lemma_property_selector(&self, sel: PropertySelector)
        ensures
            self.property(sel) matches Some(data) ==> data.selector == sel,
        decreases self.height(),
    {
        self.properties.selector_is_kept(sel);
        if self.properties.object_property(sel) is None {
            Self::lemma_first_property_selector(self.subobjects@, sel, self.height());
        }
    }

    /// Whatever the first of a sequence of trees holds under a selector
    /// reports that selector as its own.
    pub proof fn lemma_first_property_selector(
        objects: Seq<AudioObject<P>>,
        sel: PropertySelector,
        bound: nat,
    )
        requires
            Self::max_height(objects) < bound,
        ensures
            Self::first_property(objects, sel) matches Some(data) ==> data.selector == sel,
        decreases bound, objects.len(),
    {
        if objects.len() > 0 {
            objects[0].lemma_property_selector(sel);
            Self::lemma_first_property_selector(objects.drop_first(), sel, bound);
        }
    }

    /// The place of the first tree of a sequence that holds the selector, or
    /// the length of the sequence if none of them does.
    pub open spec fn first_holder(objects: Seq<AudioObject<P>>, sel: PropertySelector) -> int
        decreases objects.len(),
    {
        if objects.len() == 0 || objects[0].property(sel) is Some {
            0
        } else {
            1 + Self::first_holder(objects.drop_first(), sel)
        }
    }

    /// Where none of the first `i` trees holds the selector and tree `i`, if
    /// there is one, does, `i` is the place of the first holder.
    pub proof fn lemma_first_holder(objects: Seq<AudioObject<P>>, sel: PropertySelector, i: int)
        requires
            0 <= i <= objects.len(),
            forall|k: int| 0 <= k < i ==> (#[trigger] objects[k]).property(sel) is None,
            i < objects.len() ==> objects[i].property(sel) is Some,
        ensures
            Self::first_holder(objects, sel) == i,
        decreases i,
    {
        if i > 0 {
            assert(objects[0].property(sel) is None);
            let rest = objects.drop_first();
            assert forall|k: int| 0 <= k < i - 1 implies (#[trigger] rest[k]).property(
                sel,
            ) is None by {
                assert(rest[k] == objects[k + 1]);
            }
            if i < objects.len() {
                assert(rest[i - 1] == objects[i]);
            }
            Self::lemma_first_holder(rest, sel, i - 1);
        }
    }

    /// Whether `after` is this tree but for the one object in which the
    /// lookup of the selector ends.
    ///
    /// Every other object is the same, properties and all, and no object has
    /// gained, lost or reordered the objects that it owns. Of the object in
    /// which the lookup ends, the properties under every other selector are
    /// what they were.
    pub open spec fn changed_where_found(&self, after: Self, sel: PropertySelector) -> bool
        decreases self.height(),
    {
        if self.properties.object_property(sel) is Some {
            &&& after.subobjects@ == self.subobjects@
            &&& forall|other: PropertySelector|
                other != sel ==> #[trigger] after.properties.object_property(other)
                    == self.properties.object_property(other)
        } else {
            let i = Self::first_holder(self.subobjects@, sel);
            &&& after.properties == self.properties
            &&& after.subobjects@.len() == self.subobjects@.len()
            &&& forall|k: int|
                0 <= k < self.subobjects@.len() && k != i ==> #[trigger] after.subobjects@[k]
                    == self.subobjects@[k]
            &&& if 0 <= i < self.subobjects@.len() {
                proof {
                    Self::lemma_max_height(self.subobjects@, i);
                }
                self.subobjects@[i].changed_where_found(after.subobjects@[i], sel)
            } else {
                true
            }
        }
    }

    /// Whether the tree holds a property under the selector.
    pub fn has_property(&self, sel: PropertySelector) -> (found: bool)
        ensures
            found == self.property(sel) is Some,
    {
        self.get_property(sel).is_some()
    }

    /// Looks a property up as `get_property` does, to be changed. Whatever is
    /// done to it is done to the property that the tree holds under that
    /// selector, and to nothing else in the tree: every other object stays as
    /// it is, and every object keeps the objects that it owns, in their order.
    pub fn get_property_mut(&mut self, sel: PropertySelector) -> (property: Option<
        ObjectPropertyMut<'_>,
    >)
        ensures
            property is Some <==> old(self).property(sel) is Some,
            property is None ==> *final(self) == *old(self),
            property matches Some(p) ==> {
                let after = match p {
                    ObjectPropertyMut::BaseClass(q) => final(q).data(),
                    ObjectPropertyMut::Class(q) => final(q).data(),
                    ObjectPropertyMut::Owner(q) => final(q).data(),
                    ObjectPropertyMut::OwnedObjects(q) => final(q).data(),
                    ObjectPropertyMut::Name(q) => final(q).data(),
                };
                &&& old(self).property(sel) == Some(p.data())
                &&& p.data().selector == sel
                &&& final(self).property(sel) == Some(after)
                &&& forall|other: PropertySelector|
                    other != sel ==> #[trigger] final(self).property(other) == old(self).property(
                        other,
                    )
                &&& old(self).changed_where_found(*final(self), sel)
            },
            final(self).subobjects@.len() == old(self).subobjects@.len(),
        decreases old(self).height(),
    {
        if self.properties.get_object_property(sel).is_some() {
            return self.properties.get_object_property_mut(sel);
        }
        let count = self.subobjects.len();
        let mut i: usize = 0;
        while i < count
            invariant
                i <= count,
                count == self.subobjects@.len(),
                *self == *old(self),
                self.properties.object_property(sel) is None,
                forall|k: int| 0 <= k < i ==> (#[trigger] self.subobjects@[k]).property(sel) is None,
            ensures
                i <= count,
                count == self.subobjects@.len(),
                *self == *old(self),
                self.properties.object_property(sel) is None,
                forall|k: int| 0 <= k < i ==> (#[trigger] self.subobjects@[k]).property(sel) is None,
                i < count ==> self.subobjects@[i as int].property(sel) is Some,
            decreases count - i,
        {
            if self.subobjects[i].has_property(sel) {
                break ;
            }
            i = i + 1;
        }
        proof {
            Self::lemma_first_property_skips(self.subobjects@, sel, i as int);
        }
        if i >= count {
            assert(self.subobjects@.skip(i as int).len() == 0);
            return None;
        }
        proof {
            let rest = self.subobjects@.skip(i as int);
            assert(rest[0] == self.subobjects@[i as int]);
        }
        let ghost before = self.subobjects@;
        let ghost end = *final(self);
        proof {
            Self::lemma_max_height(self.subobjects@, i as int);
        }
        let found = self.subobjects[i].get_property_mut(sel);
        proof {
            let after = end.subobjects@;
            assert(after == before.update(i as int, after[i as int]));
            assert forall|k: int| 0 <= k < i implies (#[trigger] after[k]).property(sel) is None by {
                assert(after[k] == before[k]);
            }
            Self::lemma_first_property_skips(after, sel, i as int);
            assert(after.skip(i as int)[0] == after[i as int]);
            Self::lemma_first_holder(before, sel, i as int);
            assert(before[i as int].changed_where_found(after[i as int], sel));
            assert(old(self).changed_where_found(end, sel));
            assert forall|other: PropertySelector| other != sel implies #[trigger] end.property(
                other,
            ) == old(self).property(other) by {
                assert forall|k: int| 0 <= k < before.len() implies (#[trigger] after[k]).property(
                    other,
                ) == before[k].property(other) by {
                    if k != i {
                        assert(after[k] == before[k]);
                    }
                }
                Self::lemma_first_property_same(before, after, other);
            }
        }
        found
    }

    /// Whether the host may set the property under the selector. A selector
    /// that nothing in the tree holds is an unknown property.
    pub fn is_property_settable(&self, sel: PropertySelector) -> (settable: OSResult<bool>)
        ensures
            match self.property(sel) {
                Some(data) => settable == Ok::<bool, OSStatusError>(data.settable),
                None => settable matches Err(error) && error.spec_code()
                    == AUDIO_HARDWARE_UNKNOWN_PROPERTY_ERROR,
            },
    {
        match self.get_property(sel) {
            Some(property) => Ok(property.is_mut()),
            None => Err(OSStatusError::hw_unknown_property()),
        }
    }

    /// The size in bytes of the property under the selector. A selector that
    /// nothing in the tree holds is an unknown property.
    pub fn get_property_data_size(&self, sel: PropertySelector) -> (size: OSResult<u32>)
        ensures
            match self.property(sel) {
                Some(data) => size matches Ok(n) && n == data.bytes.len(),
                None => size matches Err(error) && error.spec_code()
                    == AUDIO_HARDWARE_UNKNOWN_PROPERTY_ERROR,
            },
    {
        match self.get_property(sel) {
            Some(property) => Ok(property.byte_size()),
            None => Err(OSStatusError::hw_unknown_property()),
        }
    }

    /// Reads the property under the selector into `data_out`, as
    /// `RawProperty::get` does. A selector that nothing in the tree holds is
    /// an unknown property, and nothing is written.
    pub fn get_property_data(
        &self,
        sel: PropertySelector,
        address: usize,
        data_out: &mut [u8],
        data_len_out: Option<&mut u32>,
    ) -> (status: OSStatus)
        ensures
            match self.property(sel) {
                None => {
                    &&& status matches Err(error)
                    &&& error.spec_code() == AUDIO_HARDWARE_UNKNOWN_PROPERTY_ERROR
                    &&& final(data_out)@ == old(data_out)@
                    &&& data_len_out matches Some(len) ==> *final(len) == *len
                },
                Some(data) => match get_refusal(
                    data,
                    address,
                    old(data_out)@.len(),
                    data_len_out is Some,
                ) {
                    Some(code) => {
                        &&& status matches Err(error)
                        &&& error.spec_code() == code
                        &&& final(data_out)@ == old(data_out)@
                        &&& data_len_out matches Some(len) ==> *final(len) == *len
                    },
                    None => {
                        &&& status is Ok
                        &&& final(data_out)@ == splice(
                            old(data_out)@,
                            0,
                            data.bytes.take(transferred_len(data, old(data_out)@.len()) as int),
                        )
                        &&& data_len_out matches Some(len)
                        &&& *final(len) == transferred_len(data, old(data_out)@.len())
                    },
                },
            },
    {
        match self.get_property(sel) {
            Some(property) => property.get(address, data_out, data_len_out),
            None => Err(OSStatusError::hw_unknown_property()),
        }
    }

    /// Writes the bytes of `data` to the property under the selector, as
    /// `RawProperty::set` does. A selector that nothing in the tree holds is
    /// an unknown property. Whether the property takes the bytes or refuses
    /// them, every other property of the tree stays as it was.
    pub fn set_property_data(&mut self, sel: PropertySelector, address: usize, data: &[u8]) -> (status:
        OSStatus)
        ensures
            forall|other: PropertySelector|
                other != sel ==> #[trigger] final(self).property(other) == old(self).property(other),
            final(self).subobjects@.len() == old(self).subobjects@.len(),
            old(self).property(sel) is Some ==> old(self).changed_where_found(*final(self), sel),
            match old(self).property(sel) {
                None => {
                    &&& status matches Err(error)
                    &&& error.spec_code() == AUDIO_HARDWARE_UNKNOWN_PROPERTY_ERROR
                    &&& *final(self) == *old(self)
                },
                Some(before) => match set_refusal(before, address, data@.len()) {
                    Some(code) => {
                        &&& status matches Err(error)
                        &&& error.spec_code() == code
                        &&& final(self).property(sel) == Some(before)
                    },
                    None => {
                        &&& status is Ok
                        &&& final(self).property(sel) == Some(before.with_bytes(data@))
                    },
                },
            },
    {
        match self.get_property_mut(sel) {
            Some(property) => property.set(address, data),
            None => Err(OSStatusError::hw_unknown_property()),
        }
    }
}

} // verus!

//! What holds of every tree of audio objects when a property is looked up.
use crate::audio_object::{AudioObject, HasProperties};
use crate::property::PropertySelector;
use vstd::prelude::*;

verus! {

/// Where a sequence of trees holds no property under a selector, none of the
/// trees does.
pub proof fn lemma_none_in_any<P: HasProperties>(
    objects: Seq<AudioObject<P>>,
    sel: PropertySelector,
    i: int,
)
    requires
        0 <= i < objects.len(),
        AudioObject::<P>::first_property(objects, sel) is None,
    ensures
        objects[i].property(sel) is None,
    decreases i,
{
    if i > 0 {
        lemma_none_in_any(objects.drop_first(), sel, i - 1);
        assert(objects.drop_first()[i - 1] == objects[i]);
    }
}

/// A selector that is found nowhere is found at no level: not among the
/// object's own properties, and in none of the objects that it owns. This is
/// no error: the lookup then gives nothing.
pub proof fn absent_property_is_absent_at_every_level<P: HasProperties>(
    root: AudioObject<P>,
    sel: PropertySelector,
    i: int,
)
    requires
        root.property(sel) is None,
        0 <= i < root.subobjects@.len(),
    ensures
        root.properties.object_property(sel) is None,
        root.subobjects@[i].property(sel) is None,
{
    lemma_none_in_any(root.subobjects@, sel, i);
}

/// A property that only an object two levels down holds is the one that the
/// lookup from the root finds, and it reports the selector that was asked
/// for.
///
/// The object is number `j` of those owned by number `i` of those owned by
/// the root. Neither the root nor that owner holds the selector itself, and
/// no tree that is searched before the object holds it anywhere.
pub proof fn grandchild_property_is_found<P: HasProperties>(
    root: AudioObject<P>,
    sel: PropertySelector,
    i: int,
    j: int,
)
    requires
        0 <= i < root.subobjects@.len(),
        0 <= j < root.subobjects@[i].subobjects@.len(),
        root.properties.object_property(sel) is None,
        root.subobjects@[i].properties.object_property(sel) is None,
        forall|k: int| 0 <= k < i ==> (#[trigger] root.subobjects@[k]).property(sel) is None,
        forall|k: int|
            0 <= k < j ==> (#[trigger] root.subobjects@[i].subobjects@[k]).property(sel) is None,
        root.subobjects@[i].subobjects@[j].properties.object_property(sel) is Some,
    ensures
        root.property(sel) == root.subobjects@[i].subobjects@[j].properties.object_property(sel),
        root.property(sel) matches Some(data) && data.selector == sel,
{
    root.lemma_property_selector(sel);
    let child = root.subobjects@[i];
    let grandchild = child.subobjects@[j];
    AudioObject::<P>::lemma_first_property_skips(child.subobjects@, sel, j);
    assert(child.subobjects@.skip(j)[0] == grandchild);
    assert(child.property(sel) == grandchild.property(sel));
    AudioObject::<P>::lemma_first_property_skips(root.subobjects@, sel, i);
    assert(root.subobjects@.skip(i)[0] == child);
}

/// Whatever the lookup finds, at whatever depth, reports the selector that
/// was asked for.
pub proof fn found_property_has_the_selector<P: HasProperties>(
    root: AudioObject<P>,
    sel: PropertySelector,
)
    ensures
        root.property(sel) matches Some(data) ==> data.selector == sel,
{
    root.lemma_property_selector(sel);
}

} // verus!

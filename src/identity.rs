use vstd::prelude::*;

verus! {

/// Value that a layer's passwd or group field holds when that layer deletes the file.
pub const WHITEOUT_MARKER: &'static str = "WHITEOUT";

/// The view of the deletion sentinel.
pub open spec fn whiteout() -> Seq<char> {
    WHITEOUT_MARKER@
}

/// The identity files extracted from one filesystem layer, keyed by its diff-id.
pub struct ImageLayer {
    pub diff_id: String,
    pub passwd: String,
    pub group: String,
}

impl ImageLayer {
    /// A field-for-field copy of the layer.
    pub fn duplicate(&self) -> (r: ImageLayer)
        ensures
            r == *self,
    {
        ImageLayer {
            diff_id: self.diff_id.clone(),
            passwd: self.passwd.clone(),
            group: self.group.clone(),
        }
    }
}

/// How one layer's file content changes the running value of that file.
pub open spec fn overlay_step(current: Seq<char>, touch: Seq<char>) -> Seq<char> {
    if touch == whiteout() {
        Seq::empty()
    } else if touch.len() > 0 {
        touch
    } else {
        current
    }
}

/// The value of a file after applying, oldest first, each layer's content of it.
pub open spec fn overlay(touches: Seq<Seq<char>>) -> Seq<char>
    decreases touches.len(),
{
    if touches.len() == 0 {
        Seq::empty()
    } else {
        overlay_step(overlay(touches.drop_last()), touches.last())
    }
}

pub open spec fn passwd_touches(layers: Seq<ImageLayer>) -> Seq<Seq<char>> {
    layers.map_values(|l: ImageLayer| l.passwd@)
}

pub open spec fn group_touches(layers: Seq<ImageLayer>) -> Seq<Seq<char>> {
    layers.map_values(|l: ImageLayer| l.group@)
}

/// Whether `s` is the deletion sentinel.
pub fn is_whiteout(s: &String) -> (r: bool)
    ensures
        r == (s@ == whiteout()),
{
    let marker: String = WHITEOUT_MARKER.to_owned();
    *s == marker
}

/// Applies one layer's content of a file to its running value.
fn apply_touch(current: String, touch: &String) -> (r: String)
    ensures
        r@ == overlay_step(current@, touch@),
{
    if is_whiteout(touch) {
        String::new()
    } else if !touch.as_str().is_empty() {
        touch.clone()
    } else {
        current
    }
}

/// Folds the layers, oldest first, into the final passwd and group contents.
pub fn merge_identity(layers: &Vec<ImageLayer>) -> (r: (String, String))
    ensures
        r.0@ == overlay(passwd_touches(layers@)),
        r.1@ == overlay(group_touches(layers@)),
{
    let mut passwd = String::new();
    let mut group = String::new();
    let mut i: usize = 0;
    while i < layers.len()
        invariant
            i <= layers.len(),
            passwd@ == overlay(passwd_touches(layers@.subrange(0, i as int))),
            group@ == overlay(group_touches(layers@.subrange(0, i as int))),
        decreases layers.len() - i,
    {
        let ghost prefix = layers@.subrange(0, i as int);
        let ghost next = layers@.subrange(0, i + 1);
        assert(next.drop_last() =~= prefix);
        assert(passwd_touches(next).drop_last() =~= passwd_touches(prefix));
        assert(group_touches(next).drop_last() =~= group_touches(prefix));
        passwd = apply_touch(passwd, &layers[i].passwd);
        group = apply_touch(group, &layers[i].group);
        i = i + 1;
    }
    assert(layers@.subrange(0, layers.len() as int) =~= layers@);
    (passwd, group)
}

/// After a layer deletes a file, the file stays deleted through every later
/// layer that leaves it untouched.
pub proof fn lemma_whiteout_persists(touches: Seq<Seq<char>>, k: int)
    requires
        0 <= k < touches.len(),
        touches[k] == whiteout(),
        forall|j: int| k < j < touches.len() ==> touches[j].len() == 0,
    ensures
        overlay(touches) == Seq::<char>::empty(),
    decreases touches.len(),
{
    if k < touches.len() - 1 {
        let rest = touches.drop_last();
        lemma_whiteout_persists(rest, k);
        assert(touches.last().len() == 0);
        assert(touches.last() != whiteout()) by {
            reveal_strlit("WHITEOUT");
        }
    }
}

/// The newest layer that writes a file decides its content, when no later layer
/// touches it.
pub proof fn lemma_last_touch_wins(touches: Seq<Seq<char>>, k: int)
    requires
        0 <= k < touches.len(),
        touches[k].len() > 0,
        touches[k] != whiteout(),
        forall|j: int| k < j < touches.len() ==> touches[j].len() == 0,
    ensures
        overlay(touches) == touches[k],
    decreases touches.len(),
{
    if k < touches.len() - 1 {
        let rest = touches.drop_last();
        lemma_last_touch_wins(rest, k);
        assert(touches.last().len() == 0);
        assert(touches.last() != whiteout()) by {
            reveal_strlit("WHITEOUT");
        }
    }
}

} // verus!

use vstd::prelude::*;

verus! {

/// Sixteen-key keypad state. The host writes it through `set_key`; the
/// interpreter only reads it, except that the key-wait instruction consumes
/// the press it resumes on.
pub struct InputState {
    pub keys: Vec<bool>,
}

/// Index of the first pressed key at or after `from`, or 16 if none is
/// pressed. This is the key a pending key-wait resumes on.
pub open spec fn first_pressed(keys: Seq<bool>, from: int) -> int
    decreases 16 - from,
{
    if from < 0 || from >= 16 {
        16
    } else if keys[from] {
        from
    } else {
        first_pressed(keys, from + 1)
    }
}

/// If no key is pressed, the scan comes up empty.
pub proof fn lemma_no_key_no_hit(keys: Seq<bool>, from: int)
    requires
        forall|k: int| 0 <= k < 16 ==> !keys[k],
    ensures
        first_pressed(keys, from) == 16,
    decreases 16 - from,
{
    if 0 <= from < 16 {
        lemma_no_key_no_hit(keys, from + 1);
    }
}

impl InputState {
    pub open spec fn wf(self) -> bool {
        self.keys@.len() == 16
    }

    pub fn new() -> (r: InputState)
        ensures
            r.wf(),
            r.keys@ == Seq::new(16, |k: int| false),
    {
        InputState { keys: crate::util::false_vec(16) }
    }

    /// Host-side write of one key's pressed state.
    pub fn set_key(&mut self, k: u8, pressed: bool)
        requires
            old(self).wf(),
            k < 16,
        ensures
            final(self).wf(),
            final(self).keys@ == old(self).keys@.update(k as int, pressed),
    {
        self.keys.set(k as usize, pressed);
    }

    pub fn key_down(&self, k: u8) -> (r: bool)
        requires
            self.wf(),
            k < 16,
        ensures
            r == self.keys@[k as int],
    {
        self.keys[k as usize]
    }

    /// Scans the keypad from key 0 upward for a pressed key.
    pub fn first_down(&self) -> (r: Option<u8>)
        requires
            self.wf(),
        ensures
            match r {
                Some(k) => k < 16 && first_pressed(self.keys@, 0) == k as int,
                None => first_pressed(self.keys@, 0) == 16,
            },
    {
        let mut k: usize = 0;
        while k < 16
            invariant
                self.wf(),
                k <= 16,
                forall|j: int| 0 <= j < k ==> !self.keys@[j],
                first_pressed(self.keys@, 0) == first_pressed(self.keys@, k as int),
            decreases 16 - k,
        {
            if self.keys[k] {
                return Some(k as u8);
            }
            k += 1;
        }
        None
    }
}

} // verus!

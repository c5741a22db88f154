use vstd::prelude::*;

verus! {

/// A keyboard key that the fly camera responds to.
#[derive(Debug, Copy, Clone, PartialEq, Eq, Structural)]
pub enum Key {
    W,
    A,
    S,
    D,
    Q,
    E,
    SPC,
    C,
    R,
    F,
}

/// The platform's virtual key code of a key.
pub open spec fn key_code_of(k: Key) -> u16 {
    match k {
        Key::W => 13,
        Key::A => 0,
        Key::S => 1,
        Key::D => 2,
        Key::Q => 12,
        Key::E => 14,
        Key::SPC => 49,
        Key::C => 8,
        Key::R => 15,
        Key::F => 3,
    }
}

impl Key {
    /// The platform's virtual key code of this key.
    pub fn code(self) -> (r: u16)
        ensures
            r == key_code_of(self),
    {
        match self {
            Key::W => 13,
            Key::A => 0,
            Key::S => 1,
            Key::D => 2,
            Key::Q => 12,
            Key::E => 14,
            Key::SPC => 49,
            Key::C => 8,
            Key::R => 15,
            Key::F => 3,
        }
    }
}

/// The set of key codes held down at the moment.
///
/// The windowing layer records key-down and key-up events into it, and the
/// frame driver reads it once per frame.
pub struct KeyState {
    pressed: Vec<u16>,
}

impl View for KeyState {
    type V = Set<u16>;

    closed spec fn view(&self) -> Set<u16> {
        self.pressed@.to_set()
    }
}

impl KeyState {
    /// No code is recorded twice.
    pub closed spec fn wf(&self) -> bool {
        self.pressed@.no_duplicates()
    }

    /// An empty key set: nothing is held.
    pub fn new() -> (r: KeyState)
        ensures
            r.wf(),
            r@ == Set::<u16>::empty(),
    {
        let r = KeyState { pressed: Vec::new() };
        proof {
            assert(r.pressed@ =~= Seq::<u16>::empty());
            assert(r@ =~= Set::<u16>::empty());
        }
        r
    }

    /// Whether the key with this code is held.
    pub fn contains(&self, code: u16) -> (r: bool)
        ensures
            r == self@.contains(code),
    {
        let mut i: usize = 0;
        while i < self.pressed.len()
            invariant
                i <= self.pressed@.len(),
                forall|j: int| 0 <= j < i ==> self.pressed@[j] != code,
            decreases self.pressed@.len() - i,
        {
            if self.pressed[i] == code {
                return true;
            }
            i = i + 1;
        }
        false
    }

    /// Records a key-down event.
    pub fn press(&mut self, code: u16)
        requires
            old(self).wf(),
        ensures
            final(self).wf(),
            final(self)@ == old(self)@.insert(code),
    {
        if !self.contains(code) {
            self.pressed.push(code);
            proof {
                assert(self.pressed@ == old(self).pressed@.push(code));
                assert(self@ =~= old(self)@.insert(code)) by {
                    assert forall|c: u16| self@.contains(c) <==> old(self)@.contains(c) || c == code by {
                        if self@.contains(c) {
                            let j = choose|j: int| 0 <= j < self.pressed@.len() && self.pressed@[j] == c;
                            if j < old(self).pressed@.len() {
                                assert(old(self).pressed@[j] == c);
                            }
                        }
                        if old(self)@.contains(c) {
                            let j = choose|j: int| 0 <= j < old(self).pressed@.len() && old(self).pressed@[j] == c;
                            assert(self.pressed@[j] == c);
                        }
                        if c == code {
                            assert(self.pressed@[self.pressed@.len() - 1] == c);
                        }
                    }
                }
            }
        } else {
            assert(old(self)@.insert(code) =~= old(self)@);
        }
    }

    /// Records a key-up event.
    pub fn release(&mut self, code: u16)
        requires
            old(self).wf(),
        ensures
            final(self).wf(),
            final(self)@ == old(self)@.remove(code),
    {
        let mut kept: Vec<u16> = Vec::new();
        let mut i: usize = 0;
        while i < self.pressed.len()
            invariant
                i <= self.pressed@.len(),
                self.pressed@.no_duplicates(),
                kept@.no_duplicates(),
                forall|c: u16| kept@.contains(c) <==> (c != code && self.pressed@.subrange(0, i as int).contains(c)),
            decreases self.pressed@.len() - i,
        {
            let c = self.pressed[i];
            proof {
                assert(self.pressed@.subrange(0, i + 1) == self.pressed@.subrange(0, i as int).push(c));
                assert(!self.pressed@.subrange(0, i as int).contains(c)) by {
                    if self.pressed@.subrange(0, i as int).contains(c) {
                        let j = choose|j: int| 0 <= j < i && self.pressed@.subrange(0, i as int)[j] == c;
                        assert(self.pressed@[j] == self.pressed@[i as int]);
                    }
                }
            }
            let ghost before = kept@;
            assert(!before.contains(c));
            if c != code {
                kept.push(c);
                proof {
                    assert(kept@ == before.push(c));
                    assert forall|d: u16| kept@.contains(d) <==> (before.contains(d) || d == c) by {
                        if kept@.contains(d) {
                            let j = choose|j: int| 0 <= j < kept@.len() && kept@[j] == d;
                            if j < before.len() {
                                assert(before[j] == d);
                            }
                        }
                        if before.contains(d) {
                            let j = choose|j: int| 0 <= j < before.len() && before[j] == d;
                            assert(kept@[j] == d);
                        }
                        if d == c {
                            assert(kept@[before.len() as int] == d);
                        }
                    }
                }
            }
            proof {
                assert forall|d: u16| kept@.contains(d) <==> (d != code && self.pressed@.subrange(0, i + 1).contains(d)) by {
                    let s = self.pressed@.subrange(0, i + 1);
                    assert(kept@.contains(d) <==> (before.contains(d) || (d == c && c != code)));
                    if s.contains(d) {
                        let j = choose|j: int| 0 <= j < s.len() && s[j] == d;
                        if j < i {
                            assert(self.pressed@.subrange(0, i as int)[j] == d);
                        }
                    }
                    if self.pressed@.subrange(0, i as int).contains(d) {
                        let j = choose|j: int| 0 <= j < i && self.pressed@.subrange(0, i as int)[j] == d;
                        assert(s[j] == d);
                    }
                    if d == c {
                        assert(s[i as int] == d);
                    }
                }
            }
            i = i + 1;
        }
        proof {
            assert(self.pressed@.subrange(0, self.pressed@.len() as int) == self.pressed@);
            assert(kept@.to_set() =~= self@.remove(code));
        }
        self.pressed = kept;
    }
}

impl Key {
    /// Whether this key is held in `keys`.
    pub fn is_pressed(self, keys: &KeyState) -> (r: bool)
        ensures
            r == keys@.contains(key_code_of(self)),
    {
        keys.contains(self.code())
    }
}

} // verus!

use vstd::prelude::*;

verus! {

/// Key code latched when the host asks to quit.
pub const KEY_QUIT: u8 = 16;

/// Key code latched when the host window wants a redraw.
pub const KEY_REDRAW: u8 = 17;

/// The input latch: key codes accumulated since the last clear, oldest
/// first. Codes 0x0 to 0xF are the hexadecimal keypad; two sentinel codes
/// stand for a quit request and a redraw request.
pub struct Keyboard {
    pub keys: Vec<u8>,
}

impl Keyboard {
    pub fn new() -> (r: Keyboard)
        ensures
            r.keys@ == Seq::<u8>::empty(),
    {
        Keyboard { keys: Vec::new() }
    }

    /// Latch one more code; earlier codes stay, in order.
    pub fn latch(&mut self, code: u8)
        ensures
            final(self).keys@ == old(self).keys@.push(code),
    {
        self.keys.push(code);
    }

    /// Empty the latch.
    pub fn clear(&mut self)
        ensures
            final(self).keys@ == Seq::<u8>::empty(),
    {
        self.keys = Vec::new();
    }

    /// Drop every occurrence of one code, keeping the rest in order.
    pub fn rem_val(&mut self, v: u8)
        ensures
            final(self).keys@ == old(self).keys@.filter(|k: u8| k != v),
    {
        let mut out: Vec<u8> = Vec::new();
        let mut i: usize = 0;
        while i < self.keys.len()
            invariant
                i <= self.keys@.len(),
                out@ == self.keys@.take(i as int).filter(|k: u8| k != v),
                self.keys@ == old(self).keys@,
            decreases self.keys@.len() - i,
        {
            let k = self.keys[i];
            proof {
                reveal(Seq::filter);
                assert(self.keys@.take(i as int + 1).drop_last() =~= self.keys@.take(i as int));
                assert(self.keys@.take(i as int + 1).last() == k);
            }
            if k != v {
                out.push(k);
            }
            i = i + 1;
        }
        proof {
            assert(self.keys@.take(self.keys@.len() as int) =~= self.keys@);
        }
        self.keys = out;
    }

    /// The most recently latched code, if any; the latch is not changed.
    pub fn get_last_key(&self) -> (r: Option<u8>)
        ensures
            r == if self.keys@.len() == 0 {
                Option::<u8>::None
            } else {
                Option::Some(self.keys@.last())
            },
    {
        if self.keys.len() == 0 {
            None
        } else {
            Some(self.keys[self.keys.len() - 1])
        }
    }

    /// Whether some occurrence of the code is latched.
    pub fn contains(&self, v: u8) -> (r: bool)
        ensures
            r == self.keys@.contains(v),
    {
        let mut i: usize = 0;
        while i < self.keys.len()
            invariant
                i <= self.keys@.len(),
                forall|j: int| 0 <= j < i ==> self.keys@[j] != v,
            decreases self.keys@.len() - i,
        {
            if self.keys[i] == v {
                return true;
            }
            i = i + 1;
        }
        false
    }
}

} // verus!

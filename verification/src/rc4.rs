//! The RC4 stream cipher.

use vstd::prelude::*;

verus! {

/// The identity permutation of the 256 bytes.
pub open spec fn rc4_identity() -> Seq<u8> {
    Seq::new(256, |k: int| k as u8)
}

/// `s` with the entries at `a` and `b` exchanged.
pub open spec fn rc4_swap(s: Seq<u8>, a: int, b: int) -> Seq<u8> {
    s.update(a, s[b]).update(b, s[a])
}

/// The byte of the key that the scheduling step `k` uses. The key is walked
/// in rounds of its length, taken as a byte.
pub open spec fn rc4_key_byte(key: Seq<u8>, k: int) -> u8 {
    key[k % ((key.len() % 256) as int)]
}

/// The permutation and the running index after the first `k` steps of the
/// key schedule.
pub open spec fn rc4_schedule(key: Seq<u8>, k: nat) -> (Seq<u8>, u8)
    decreases k,
{
    if k == 0 {
        (rc4_identity(), 0u8)
    } else {
        let (s, l) = rc4_schedule(key, (k - 1) as nat);
        let next = l.wrapping_add(rc4_key_byte(key, k - 1)).wrapping_add(s[k - 1]);
        (rc4_swap(s, k - 1, next as int), next)
    }
}

/// The state of a cipher: the permutation and its two indices.
pub struct Rc4State {
    pub s: Seq<u8>,
    pub i: u8,
    pub j: u8,
}

/// The state after one more byte of key stream.
pub open spec fn rc4_advance(state: Rc4State) -> Rc4State {
    let i = state.i.wrapping_add(1);
    let j = state.j.wrapping_add(state.s[i as int]);
    Rc4State { s: rc4_swap(state.s, i as int, j as int), i, j }
}

/// The byte of key stream that a state that has just advanced gives.
pub open spec fn rc4_stream_byte(state: Rc4State) -> u8 {
    state.s[state.s[state.i as int].wrapping_add(state.s[state.j as int]) as int]
}

/// The state after `n` more bytes of key stream.
pub open spec fn rc4_after(state: Rc4State, n: nat) -> Rc4State
    decreases n,
{
    if n == 0 {
        state
    } else {
        rc4_advance(rc4_after(state, (n - 1) as nat))
    }
}

/// `data` with the next bytes of key stream folded in, byte by byte.
pub open spec fn rc4_crypt(state: Rc4State, data: Seq<u8>) -> Seq<u8> {
    Seq::new(data.len(), |k: int| data[k] ^ rc4_stream_byte(rc4_after(state, (k + 1) as nat)))
}

/// Folding the same bytes of key stream in twice gives the data back: a
/// cipher in the state of the sender's deciphers what the sender enciphered.
pub proof fn lemma_rc4_crypt_twice(state: Rc4State, data: Seq<u8>)
    ensures
        rc4_crypt(state, rc4_crypt(state, data)) == data,
{
    let once = rc4_crypt(state, data);
    let twice = rc4_crypt(state, once);
    assert forall|k: int| 0 <= k < data.len() implies twice[k] == data[k] by {
        let d = data[k];
        let key = rc4_stream_byte(rc4_after(state, (k + 1) as nat));
        assert((d ^ key) ^ key == d) by (bit_vector);
    }
    assert(twice =~= data);
}

/// An RC4 cipher in the middle of its key stream.
pub struct RC4 {
    s: Vec<u8>,
    i: u8,
    j: u8,
}

impl View for RC4 {
    type V = Rc4State;

    closed spec fn view(&self) -> Rc4State {
        Rc4State { s: self.s@, i: self.i, j: self.j }
    }
}

impl RC4 {
    /// The permutation holds 256 bytes.
    pub closed spec fn wf(&self) -> bool {
        self.s@.len() == 256
    }

    /// Exchanges two entries of the permutation.
    fn swap(&mut self, a: usize, b: usize)
        requires
            old(self).wf(),
            a < 256,
            b < 256,
        ensures
            final(self).wf(),
            final(self).s@ == rc4_swap(old(self).s@, a as int, b as int),
            final(self).i == old(self).i,
            final(self).j == old(self).j,
    {
        let at_a = self.s[a];
        let at_b = self.s[b];
        self.s[a] = at_b;
        self.s[b] = at_a;
    }

    /// A cipher at the start of the key stream of `given_key`. The length of
    /// the key, taken as a byte, must not be zero.
    pub fn initialize(given_key: Vec<u8>) -> (rc4: RC4)
        requires
            given_key@.len() % 256 != 0,
        ensures
            rc4.wf(),
            rc4@ == (Rc4State { s: rc4_schedule(given_key@, 256).0, i: 0, j: 0 }),
    {
        let mut s: Vec<u8> = Vec::new();
        let mut k: usize = 0;
        while k < 256
            invariant
                k <= 256,
                s@.len() == k,
                forall|n: int| 0 <= n < k ==> s@[n] == n as u8,
            decreases 256 - k,
        {
            s.push(k as u8);
            k = k + 1;
        }
        assert(s@ =~= rc4_identity());
        let mut rc4 = RC4 { s, i: 0, j: 0 };
        let rounds: u8 = #[verifier::truncate] (given_key.len() as u8);
        assert(rounds == given_key@.len() % 256) by {
            let n = given_key.len();
            assert(n as u8 == n % 256) by (bit_vector);
        }
        let mut l: u8 = 0;
        let mut d: usize = 0;
        while d < 256
            invariant
                d <= 256,
                rc4.wf(),
                rc4.i == 0,
                rc4.j == 0,
                rounds == given_key@.len() % 256,
                rounds != 0,
                (rc4.s@, l) == rc4_schedule(given_key@, d as nat),
            decreases 256 - d,
        {
            let k = d as u8;
            l = l.wrapping_add(given_key[(k % rounds) as usize]).wrapping_add(rc4.s[d]);
            rc4.swap(d, l as usize);
            d = d + 1;
        }
        rc4
    }

    /// Folds the next bytes of the key stream into `data`, and moves the
    /// cipher on by as many bytes.
    pub fn encrypt(&mut self, data: Vec<u8>) -> (new_data: Vec<u8>)
        requires
            old(self).wf(),
        ensures
            final(self).wf(),
            new_data@ == rc4_crypt(old(self)@, data@),
            final(self)@ == rc4_after(old(self)@, data@.len()),
    {
        let mut new_data: Vec<u8> = data;
        let ghost start = self@;
        let ghost plain = new_data@;
        let mut k: usize = 0;
        while k < new_data.len()
            invariant
                k <= plain.len(),
                self.wf(),
                new_data@.len() == plain.len(),
                self@ == rc4_after(start, k as nat),
                forall|n: int| 0 <= n < k ==> new_data@[n] == rc4_crypt(start, plain)[n],
                forall|n: int| k <= n < plain.len() ==> new_data@[n] == plain[n],
            decreases plain.len() - k,
        {
            self.i = self.i.wrapping_add(1);
            self.j = self.j.wrapping_add(self.s[self.i as usize]);
            self.swap(self.i as usize, self.j as usize);
            let si = self.s[self.i as usize];
            let sj = self.s[self.j as usize];
            let stream = self.s[si.wrapping_add(sj) as usize];
            let folded = new_data[k] ^ stream;
            new_data[k] = folded;
            k = k + 1;
        }
        assert(new_data@ =~= rc4_crypt(start, plain));
        new_data
    }

    /// Takes the next bytes of the key stream out of `data`: the same
    /// folding as `encrypt`.
    pub fn decrypt(&mut self, data: Vec<u8>) -> (new_data: Vec<u8>)
        requires
            old(self).wf(),
        ensures
            final(self).wf(),
            new_data@ == rc4_crypt(old(self)@, data@),
            final(self)@ == rc4_after(old(self)@, data@.len()),
    {
        self.encrypt(data)
    }

    /// A copy of the permutation.
    pub fn state(&self) -> (s: Vec<u8>)
        ensures
            s@ == self@.s,
    {
        self.s.clone()
    }
}

} // verus!

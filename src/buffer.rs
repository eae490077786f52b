use vstd::prelude::*;

verus! {

/// What a buffer holds after its slots have been written from `src`, in
/// order from slot 0: items of `src` past the end of `old` are dropped, and
/// slots past the end of `src` keep the value they had.
pub open spec fn filled_from<T>(old: Seq<T>, src: Seq<T>) -> Seq<T> {
    Seq::new(old.len(), |i: int| if i < src.len() { src[i] } else { old[i] })
}

/// A container of exactly `N` items, sized once when it is made and never
/// grown or shrunk afterwards.
#[derive(Debug, Clone)]
pub struct FixedBuffer<T, const N: usize> {
    data: Vec<T>,
}

impl<T, const N: usize> View for FixedBuffer<T, N> {
    type V = Seq<T>;

    closed spec fn view(&self) -> Seq<T> {
        self.data@
    }
}

impl<T: Copy, const N: usize> FixedBuffer<T, N> {
    /// The buffer holds exactly `N` items.
    pub open spec fn wf(&self) -> bool {
        self@.len() == N
    }

    /// A buffer whose `N` slots all hold `value`.
    pub fn filled(value: T) -> (r: Self)
        ensures
            r.wf(),
            r@ == Seq::new(N as nat, |_i: int| value),
    {
        let mut data: Vec<T> = Vec::with_capacity(N);
        let mut i: usize = 0;
        while i < N
            invariant
                i <= N,
                data@ == Seq::new(i as nat, |_i: int| value),
            decreases N - i,
        {
            data.push(value);
            i = i + 1;
            assert(data@ =~= Seq::new(i as nat, |_i: int| value));
        }
        FixedBuffer { data }
    }

    /// Takes `data` as the buffer's contents when it holds exactly `N` items.
    pub fn from_vec(data: Vec<T>) -> (r: Option<Self>)
        ensures
            r is Some <==> data@.len() == N,
            r matches Some(b) ==> b.wf() && b@ == data@,
    {
        if data.len() == N {
            Some(FixedBuffer { data })
        } else {
            None
        }
    }

    /// Writes the items of `src` into the slots in order from slot 0. Items
    /// beyond the `N`th are dropped; when `src` is shorter than `N`, the
    /// remaining slots keep their value. The length stays `N`.
    pub fn fill_from_iter(&mut self, src: &[T])
        requires
            old(self).wf(),
        ensures
            final(self).wf(),
            final(self)@.len() == N,
            final(self)@ == filled_from(old(self)@, src@),
    {
        let n: usize = if src.len() < N { src.len() } else { N };
        let mut i: usize = 0;
        while i < n
            invariant
                n <= N,
                n <= src@.len(),
                i <= n,
                self.data@.len() == N,
                forall|j: int| 0 <= j < i ==> self.data@[j] == src@[j],
                forall|j: int| i <= j < N ==> self.data@[j] == old(self)@[j],
            decreases n - i,
        {
            self.data.set(i, src[i]);
            i = i + 1;
        }
        assert(self@ =~= filled_from(old(self)@, src@));
    }

    /// The number of slots, which is always `N`.
    pub fn len(&self) -> (r: usize)
        requires
            self.wf(),
        ensures
            r == N,
            r == self@.len(),
    {
        self.data.len()
    }

    /// The item in slot `i`.
    pub fn get(&self, i: usize) -> (r: T)
        requires
            self.wf(),
            i < N,
        ensures
            r == self@[i as int],
    {
        self.data[i]
    }

    /// The contents, in slot order.
    pub fn as_slice(&self) -> (r: &[T])
        ensures
            r@ == self@,
    {
        self.data.as_slice()
    }
}

impl<T: Copy + Default, const N: usize> FixedBuffer<T, N> {
    /// A buffer whose `N` slots all hold `T`'s default value.
    pub fn new() -> (r: Self)
        ensures
            r.wf(),
            forall|i: int| 0 <= i < N ==> #[trigger] r@[i] == r@[0],
            forall|i: int| 0 <= i < N ==> call_ensures(T::default, (), #[trigger] r@[i]),
    {
        let d = T::default();
        FixedBuffer::filled(d)
    }
}

} // verus!

use vstd::prelude::*;

verus! {

/// `n` values, each made by a call of `f`.
pub fn array_init<T, F: Fn() -> T>(n: usize, f: F) -> (r: Vec<T>)
    requires
        call_requires(f, ()),
    ensures
        r@.len() == n,
        forall|i: int| 0 <= i < n ==> call_ensures(f, (), #[trigger] r@[i]),
{
    let mut r: Vec<T> = Vec::new();
    let mut i: usize = 0;
    while i < n
        invariant
            i <= n,
            r@.len() == i,
            call_requires(f, ()),
            forall|j: int| 0 <= j < i ==> call_ensures(f, (), #[trigger] r@[j]),
        decreases n - i,
    {
        let x = f();
        r.push(x);
        i = i + 1;
    }
    r
}

/// The index of a vector's last element.
pub trait VecExt {
    fn last_index(&self) -> Option<usize>;
}

impl<T> VecExt for Vec<T> {
    fn last_index(&self) -> (r: Option<usize>)
        ensures
            self@.len() == 0 ==> r is None,
            self@.len() > 0 ==> r == Some((self@.len() - 1) as usize),
    {
        let len = self.len();
        if len == 0 {
            None
        } else {
            Some(len - 1)
        }
    }
}

} // verus!

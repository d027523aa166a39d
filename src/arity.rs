use vstd::prelude::*;

verus! {

/// Call arguments of a statically known count: none to ten of one type.
#[derive(Debug, Clone, PartialEq, Eq)]
pub enum TupleVariant<T> {
    Zero,
    One(T),
    Two(T, T),
    Three(T, T, T),
    Four(T, T, T, T),
    Five(T, T, T, T, T),
    Six(T, T, T, T, T, T),
    Seven(T, T, T, T, T, T, T),
    Eight(T, T, T, T, T, T, T, T),
    Nine(T, T, T, T, T, T, T, T, T),
    Ten(T, T, T, T, T, T, T, T, T, T),
}

/// The most arguments that a tuple holds.
pub const MAX_ARITY: usize = 10;

/// Why a list of arguments has no tuple.
#[derive(Debug, Clone, Copy, PartialEq, Eq, Structural)]
pub enum ArityError {
    /// More than ten arguments.
    TooManyArguments,
}

impl<T> TupleVariant<T> {
    /// The elements of the tuple, in order.
    pub open spec fn elems(self) -> Seq<T> {
        match self {
            TupleVariant::Zero => Seq::empty(),
            TupleVariant::One(a) => seq![a],
            TupleVariant::Two(a, b) => seq![a, b],
            TupleVariant::Three(a, b, c) => seq![a, b, c],
            TupleVariant::Four(a, b, c, d) => seq![a, b, c, d],
            TupleVariant::Five(a, b, c, d, e) => seq![a, b, c, d, e],
            TupleVariant::Six(a, b, c, d, e, f) => seq![a, b, c, d, e, f],
            TupleVariant::Seven(a, b, c, d, e, f, g) => seq![a, b, c, d, e, f, g],
            TupleVariant::Eight(a, b, c, d, e, f, g, h) => seq![a, b, c, d, e, f, g, h],
            TupleVariant::Nine(a, b, c, d, e, f, g, h, i) => seq![a, b, c, d, e, f, g, h, i],
            TupleVariant::Ten(a, b, c, d, e, f, g, h, i, j) => seq![a, b, c, d, e, f, g, h, i, j],
        }
    }
}

fn take_last<T>(v: &mut Vec<T>) -> (r: T)
    requires
        old(v)@.len() > 0,
    ensures
        final(v)@ == old(v)@.drop_last(),
        r == old(v)@.last(),
{
    v.pop().unwrap()
}

/// Shapes a list of arguments into the tuple of its length.
///
/// An empty list is the zero-argument tuple; a list of more than ten fails.
pub fn to_tuple<T>(values: Vec<T>) -> (r: Result<TupleVariant<T>, ArityError>)
    ensures
        r is Ok <==> values@.len() <= MAX_ARITY,
        r matches Ok(t) ==> t.elems() == values@,
        r matches Err(e) ==> e == ArityError::TooManyArguments,
{
    let n = values.len();
    if n > MAX_ARITY {
        return Err(ArityError::TooManyArguments);
    }
    let ghost all = values@;
    let mut v = values;
    if n == 0 {
        assert(all =~= Seq::<T>::empty());
        return Ok(TupleVariant::Zero);
    }
    if n == 1 {
        let a = take_last(&mut v);
        assert(seq![a] =~= all);
        return Ok(TupleVariant::One(a));
    }
    if n == 2 {
        let b = take_last(&mut v);
        let a = take_last(&mut v);
        assert(seq![a, b] =~= all);
        return Ok(TupleVariant::Two(a, b));
    }
    if n == 3 {
        let c = take_last(&mut v);
        let b = take_last(&mut v);
        let a = take_last(&mut v);
        assert(seq![a, b, c] =~= all);
        return Ok(TupleVariant::Three(a, b, c));
    }
    if n == 4 {
        let d = take_last(&mut v);
        let c = take_last(&mut v);
        let b = take_last(&mut v);
        let a = take_last(&mut v);
        assert(seq![a, b, c, d] =~= all);
        return Ok(TupleVariant::Four(a, b, c, d));
    }
    if n == 5 {
        let e = take_last(&mut v);
        let d = take_last(&mut v);
        let c = take_last(&mut v);
        let b = take_last(&mut v);
        let a = take_last(&mut v);
        assert(seq![a, b, c, d, e] =~= all);
        return Ok(TupleVariant::Five(a, b, c, d, e));
    }
    if n == 6 {
        let f = take_last(&mut v);
        let e = take_last(&mut v);
        let d = take_last(&mut v);
        let c = take_last(&mut v);
        let b = take_last(&mut v);
        let a = take_last(&mut v);
        assert(seq![a, b, c, d, e, f] =~= all);
        return Ok(TupleVariant::Six(a, b, c, d, e, f));
    }
    if n == 7 {
        let g = take_last(&mut v);
        let f = take_last(&mut v);
        let e = take_last(&mut v);
        let d = take_last(&mut v);
        let c = take_last(&mut v);
        let b = take_last(&mut v);
        let a = take_last(&mut v);
        assert(seq![a, b, c, d, e, f, g] =~= all);
        return Ok(TupleVariant::Seven(a, b, c, d, e, f, g));
    }
    if n == 8 {
        let h = take_last(&mut v);
        let g = take_last(&mut v);
        let f = take_last(&mut v);
        let e = take_last(&mut v);
        let d = take_last(&mut v);
        let c = take_last(&mut v);
        let b = take_last(&mut v);
        let a = take_last(&mut v);
        assert(seq![a, b, c, d, e, f, g, h] =~= all);
        return Ok(TupleVariant::Eight(a, b, c, d, e, f, g, h));
    }
    if n == 9 {
        let i = take_last(&mut v);
        let h = take_last(&mut v);
        let g = take_last(&mut v);
        let f = take_last(&mut v);
        let e = take_last(&mut v);
        let d = take_last(&mut v);
        let c = take_last(&mut v);
        let b = take_last(&mut v);
        let a = take_last(&mut v);
        assert(seq![a, b, c, d, e, f, g, h, i] =~= all);
        return Ok(TupleVariant::Nine(a, b, c, d, e, f, g, h, i));
    }
    if n == 10 {
        let j = take_last(&mut v);
        let i = take_last(&mut v);
        let h = take_last(&mut v);
        let g = take_last(&mut v);
        let f = take_last(&mut v);
        let e = take_last(&mut v);
        let d = take_last(&mut v);
        let c = take_last(&mut v);
        let b = take_last(&mut v);
        let a = take_last(&mut v);
        assert(seq![a, b, c, d, e, f, g, h, i, j] =~= all);
        return Ok(TupleVariant::Ten(a, b, c, d, e, f, g, h, i, j));
    }
    proof { assert(false); }
    Err(ArityError::TooManyArguments)
}

} // verus!

//! Lookups in type declaration documents.
use vstd::prelude::*;
use crate::wire::{Dec, SchemaDocument, WireType};

verus! {

/// The type that one declaration gives to `key`, if it is a type declaration of that name.
pub open spec fn dec_type(d: Dec, key: Seq<char>) -> Option<WireType> {
    match d {
        Dec::TypD(b) => if b.id@ == key {
            Some(b.typ)
        } else {
            None
        },
        Dec::ImportD(_) => None,
    }
}

/// The type of the first declaration of `key` in `decs`.
pub open spec fn first_type(decs: Seq<Dec>, key: Seq<char>) -> Option<WireType>
    decreases decs.len(),
{
    if decs.len() == 0 {
        None
    } else {
        match dec_type(decs[0], key) {
            Some(t) => Some(t),
            None => first_type(decs.drop_first(), key),
        }
    }
}

/// The type of the first declaration of `key` in the first document that declares it.
pub open spec fn first_type_in(progs: Seq<SchemaDocument>, key: Seq<char>) -> Option<WireType>
    decreases progs.len(),
{
    if progs.len() == 0 {
        None
    } else {
        match first_type(progs[0].decs@, key) {
            Some(t) => Some(t),
            None => first_type_in(progs.drop_first(), key),
        }
    }
}

proof fn lemma_first_type_step(decs: Seq<Dec>, i: int, key: Seq<char>)
    requires
        0 <= i < decs.len(),
    ensures
        first_type(decs.subrange(i, decs.len() as int), key) == match dec_type(decs[i], key) {
            Some(t) => Some(t),
            None => first_type(decs.subrange(i + 1, decs.len() as int), key),
        },
{
    assert(decs.subrange(i, decs.len() as int).drop_first() =~= decs.subrange(i + 1, decs.len() as int));
}

/// Gets a type defined in a document's declarations: the first declaration of that name.
pub fn get_type<'a>(prog: &'a SchemaDocument, key: &str) -> (r: Option<&'a WireType>)
    ensures
        match first_type(prog.decs@, key@) {
            Some(t) => r == Some(&t),
            None => r is None,
        },
{
    let wanted = String::from_str(key);
    let n = prog.decs.len();
    let mut i: usize = 0;
    assert(prog.decs@.subrange(0, n as int) =~= prog.decs@);
    while i < n
        invariant
            n == prog.decs@.len(),
            i <= n,
            wanted@ == key@,
            first_type(prog.decs@, key@) == first_type(prog.decs@.subrange(i as int, n as int), key@),
        decreases n - i,
    {
        proof { lemma_first_type_step(prog.decs@, i as int, key@); }
        if let Dec::TypD(b) = &prog.decs[i] {
            if b.id == wanted {
                return Some(&b.typ);
            }
        }
        i = i + 1;
    }
    assert(prog.decs@.subrange(n as int, n as int).len() == 0);
    None
}

/// Gets a type defined in a document's declarations; the same as `get_type`.
pub fn get<'a>(prog: &'a SchemaDocument, key: &str) -> (r: Option<&'a WireType>)
    ensures
        match first_type(prog.decs@, key@) {
            Some(t) => r == Some(&t),
            None => r is None,
        },
{
    get_type(prog, key)
}

/// The init argument types of the document's service, if the service is a constructor.
pub fn get_init_arg_type(prog: &SchemaDocument) -> (r: Option<&Vec<WireType>>)
    ensures
        match prog.actor {
            Some(WireType::ClassT(args, _)) => r == Some(&args),
            _ => r is None,
        },
{
    match &prog.actor {
        Some(WireType::ClassT(args, _)) => Some(args),
        _ => None,
    }
}

/// Finds a type in any of a list of documents: the first document that declares it wins.
pub fn get_type_from_any<'a>(progs: &'a [SchemaDocument], name: &str) -> (r: Option<&'a WireType>)
    ensures
        match first_type_in(progs@, name@) {
            Some(t) => r == Some(&t),
            None => r is None,
        },
{
    let n = progs.len();
    let mut i: usize = 0;
    assert(progs@.subrange(0, n as int) =~= progs@);
    while i < n
        invariant
            n == progs@.len(),
            i <= n,
            first_type_in(progs@, name@) == first_type_in(progs@.subrange(i as int, n as int), name@),
        decreases n - i,
    {
        assert(progs@.subrange(i as int, n as int).drop_first() =~= progs@.subrange(i + 1, n as int));
        let found = get_type(&progs[i], name);
        if found.is_some() {
            return found;
        }
        i = i + 1;
    }
    assert(progs@.subrange(n as int, n as int).len() == 0);
    None
}

} // verus!

//! The bridge between trees and typed values.
//!
//! A configuration type says how it is read from a tree and how it is written
//! as one. The library ships the conversions of the scalars and of the tree
//! itself; an application adds those of its own types.

use vstd::prelude::*;
use vstd::string::StringExecFns;

use crate::tree::{Number, Tree, TreeView};

verus! {

/// A type that can be read from a tree. A tree that does not fit is refused
/// with a text that says why; nothing is coerced or repaired.
pub trait FromTree: Sized {
    fn from_tree(tree: &Tree) -> Result<Self, String>;
}

/// A type that can be written as a tree.
pub trait ToTree {
    fn to_tree(&self) -> Result<Tree, String>;
}

/// `outcome` is what reading a tree that stands for `model` gave.
pub open spec fn read_from<T: FromTree>(model: TreeView, outcome: Result<T, String>) -> bool {
    exists|tree: Tree| tree@ == model && call_ensures(T::from_tree, (&tree,), outcome)
}

/// `outcome` is what writing `value` as a tree gave, trees taken by their model.
pub open spec fn written_as<V: ToTree>(value: V, outcome: Result<TreeView, String>) -> bool {
    exists|r: Result<Tree, String>|
        call_ensures(V::to_tree, (&value,), r) && outcome == match r {
            Ok(tree) => Ok::<TreeView, String>(tree@),
            Err(why) => Err::<TreeView, String>(why),
        }
}

/// The unsigned integer that a tree holds, if it is one.
pub open spec fn unsigned_of(tree: TreeView) -> Option<u64> {
    match tree {
        TreeView::Number(Number::PosInt(n)) => Some(n),
        _ => None,
    }
}

/// The signed integer that a tree holds, if it is one that fits.
pub open spec fn signed_of(tree: TreeView) -> Option<i64> {
    match tree {
        TreeView::Number(Number::PosInt(n)) => if n <= i64::MAX {
            Some(n as i64)
        } else {
            None
        },
        TreeView::Number(Number::NegInt(n)) => Some(n),
        _ => None,
    }
}

/// The tree of a signed integer: one that is not negative is held as an
/// unsigned one.
pub open spec fn signed_tree(n: i64) -> TreeView {
    if n >= 0 {
        TreeView::Number(Number::PosInt(n as u64))
    } else {
        TreeView::Number(Number::NegInt(n))
    }
}

/// Reads an unsigned integer that is at most `max`.
fn read_unsigned(tree: &Tree, max: u64) -> (r: Result<u64, String>)
    ensures
        match unsigned_of(tree@) {
            Some(n) => if n <= max {
                r == Ok::<u64, String>(n)
            } else {
                r is Err
            },
            None => r is Err,
        },
{
    match tree {
        Tree::Number(Number::PosInt(n)) => {
            if *n <= max {
                Ok(*n)
            } else {
                Err(String::from_str("invalid value: the integer is out of range"))
            }
        },
        _ => Err(String::from_str("invalid type: expected an unsigned integer")),
    }
}

/// Reads a signed integer between `min` and `max`.
fn read_signed(tree: &Tree, min: i64, max: i64) -> (r: Result<i64, String>)
    ensures
        match signed_of(tree@) {
            Some(n) => if min <= n <= max {
                r == Ok::<i64, String>(n)
            } else {
                r is Err
            },
            None => r is Err,
        },
{
    match tree {
        Tree::Number(Number::PosInt(n)) => {
            if *n <= i64::MAX as u64 && (*n as i64) <= max && (*n as i64) >= min {
                Ok(*n as i64)
            } else {
                Err(String::from_str("invalid value: the integer is out of range"))
            }
        },
        Tree::Number(Number::NegInt(n)) => {
            if min <= *n && *n <= max {
                Ok(*n)
            } else {
                Err(String::from_str("invalid value: the integer is out of range"))
            }
        },
        _ => Err(String::from_str("invalid type: expected an integer")),
    }
}

/// Writes a signed integer.
fn write_signed(n: i64) -> (tree: Tree)
    ensures
        tree@ == signed_tree(n),
{
    if n >= 0 {
        Tree::Number(Number::PosInt(n as u64))
    } else {
        Tree::Number(Number::NegInt(n))
    }
}

impl FromTree for Tree {
    fn from_tree(tree: &Tree) -> (r: Result<Tree, String>)
        ensures
            r matches Ok(t) && t@ == tree@,
    {
        Ok(tree.clone())
    }
}

impl ToTree for Tree {
    fn to_tree(&self) -> (r: Result<Tree, String>)
        ensures
            r matches Ok(t) && t@ == self@,
    {
        Ok(self.clone())
    }
}

impl FromTree for bool {
    fn from_tree(tree: &Tree) -> (r: Result<bool, String>)
        ensures
            match tree@ {
                TreeView::Bool(b) => r == Ok::<bool, String>(b),
                _ => r is Err,
            },
    {
        match tree {
            Tree::Bool(b) => Ok(*b),
            _ => Err(String::from_str("invalid type: expected a boolean")),
        }
    }
}

impl ToTree for bool {
    fn to_tree(&self) -> (r: Result<Tree, String>)
        ensures
            r matches Ok(t) && t@ == TreeView::Bool(*self),
    {
        Ok(Tree::Bool(*self))
    }
}

impl FromTree for String {
    fn from_tree(tree: &Tree) -> (r: Result<String, String>)
        ensures
            match tree@ {
                TreeView::Text(s) => r matches Ok(t) && t@ == s,
                _ => r is Err,
            },
    {
        match tree {
            Tree::Text(s) => Ok(s.clone()),
            _ => Err(String::from_str("invalid type: expected a string")),
        }
    }
}

impl ToTree for String {
    fn to_tree(&self) -> (r: Result<Tree, String>)
        ensures
            r matches Ok(t) && t@ == TreeView::Text(self@),
    {
        Ok(Tree::Text(self.clone()))
    }
}

impl ToTree for &str {
    fn to_tree(&self) -> (r: Result<Tree, String>)
        ensures
            r matches Ok(t) && t@ == TreeView::Text(self@),
    {
        Ok(Tree::Text(String::from_str(*self)))
    }
}

impl FromTree for u64 {
    fn from_tree(tree: &Tree) -> (r: Result<u64, String>)
        ensures
            match unsigned_of(tree@) {
                Some(n) => r == Ok::<u64, String>(n),
                None => r is Err,
            },
    {
        read_unsigned(tree, u64::MAX)
    }
}

impl ToTree for u64 {
    fn to_tree(&self) -> (r: Result<Tree, String>)
        ensures
            r matches Ok(t) && t@ == TreeView::Number(Number::PosInt(*self)),
    {
        Ok(Tree::Number(Number::PosInt(*self)))
    }
}

impl FromTree for u32 {
    fn from_tree(tree: &Tree) -> (r: Result<u32, String>)
        ensures
            match unsigned_of(tree@) {
                Some(n) => if n <= u32::MAX {
                    r == Ok::<u32, String>(n as u32)
                } else {
                    r is Err
                },
                None => r is Err,
            },
    {
        match read_unsigned(tree, u32::MAX as u64) {
            Ok(n) => Ok(n as u32),
            Err(why) => Err(why),
        }
    }
}

impl ToTree for u32 {
    fn to_tree(&self) -> (r: Result<Tree, String>)
        ensures
            r matches Ok(t) && t@ == TreeView::Number(Number::PosInt(*self as u64)),
    {
        Ok(Tree::Number(Number::PosInt(*self as u64)))
    }
}

impl FromTree for u16 {
    fn from_tree(tree: &Tree) -> (r: Result<u16, String>)
        ensures
            match unsigned_of(tree@) {
                Some(n) => if n <= u16::MAX {
                    r == Ok::<u16, String>(n as u16)
                } else {
                    r is Err
                },
                None => r is Err,
            },
    {
        match read_unsigned(tree, u16::MAX as u64) {
            Ok(n) => Ok(n as u16),
            Err(why) => Err(why),
        }
    }
}

impl ToTree for u16 {
    fn to_tree(&self) -> (r: Result<Tree, String>)
        ensures
            r matches Ok(t) && t@ == TreeView::Number(Number::PosInt(*self as u64)),
    {
        Ok(Tree::Number(Number::PosInt(*self as u64)))
    }
}

impl FromTree for u8 {
    fn from_tree(tree: &Tree) -> (r: Result<u8, String>)
        ensures
            match unsigned_of(tree@) {
                Some(n) => if n <= u8::MAX {
                    r == Ok::<u8, String>(n as u8)
                } else {
                    r is Err
                },
                None => r is Err,
            },
    {
        match read_unsigned(tree, u8::MAX as u64) {
            Ok(n) => Ok(n as u8),
            Err(why) => Err(why),
        }
    }
}

impl ToTree for u8 {
    fn to_tree(&self) -> (r: Result<Tree, String>)
        ensures
            r matches Ok(t) && t@ == TreeView::Number(Number::PosInt(*self as u64)),
    {
        Ok(Tree::Number(Number::PosInt(*self as u64)))
    }
}

impl FromTree for i64 {
    fn from_tree(tree: &Tree) -> (r: Result<i64, String>)
        ensures
            match signed_of(tree@) {
                Some(n) => r == Ok::<i64, String>(n),
                None => r is Err,
            },
    {
        read_signed(tree, i64::MIN, i64::MAX)
    }
}

impl ToTree for i64 {
    fn to_tree(&self) -> (r: Result<Tree, String>)
        ensures
            r matches Ok(t) && t@ == signed_tree(*self),
    {
        Ok(write_signed(*self))
    }
}

impl FromTree for i32 {
    fn from_tree(tree: &Tree) -> (r: Result<i32, String>)
        ensures
            match signed_of(tree@) {
                Some(n) => if i32::MIN <= n <= i32::MAX {
                    r == Ok::<i32, String>(n as i32)
                } else {
                    r is Err
                },
                None => r is Err,
            },
    {
        match read_signed(tree, i32::MIN as i64, i32::MAX as i64) {
            Ok(n) => Ok(n as i32),
            Err(why) => Err(why),
        }
    }
}

impl ToTree for i32 {
    fn to_tree(&self) -> (r: Result<Tree, String>)
        ensures
            r matches Ok(t) && t@ == signed_tree(*self as i64),
    {
        Ok(write_signed(*self as i64))
    }
}

/// Round trip of a `u64`: written as a tree and read back, the value is the
/// same.
pub proof fn lemma_round_trip_u64(value: u64, written: Tree, read: Result<u64, String>)
    requires
        call_ensures(<u64 as ToTree>::to_tree, (&value,), Ok::<Tree, String>(written)),
        call_ensures(<u64 as FromTree>::from_tree, (&written,), read),
    ensures
        read == Ok::<u64, String>(value),
{
}

/// Round trip of a `u32`: written as a tree and read back, the value is the
/// same.
pub proof fn lemma_round_trip_u32(value: u32, written: Tree, read: Result<u32, String>)
    requires
        call_ensures(<u32 as ToTree>::to_tree, (&value,), Ok::<Tree, String>(written)),
        call_ensures(<u32 as FromTree>::from_tree, (&written,), read),
    ensures
        read == Ok::<u32, String>(value),
{
}

/// Round trip of a `u16`: written as a tree and read back, the value is the
/// same.
pub proof fn lemma_round_trip_u16(value: u16, written: Tree, read: Result<u16, String>)
    requires
        call_ensures(<u16 as ToTree>::to_tree, (&value,), Ok::<Tree, String>(written)),
        call_ensures(<u16 as FromTree>::from_tree, (&written,), read),
    ensures
        read == Ok::<u16, String>(value),
{
}

/// Round trip of a `u8`: written as a tree and read back, the value is the
/// same.
pub proof fn lemma_round_trip_u8(value: u8, written: Tree, read: Result<u8, String>)
    requires
        call_ensures(<u8 as ToTree>::to_tree, (&value,), Ok::<Tree, String>(written)),
        call_ensures(<u8 as FromTree>::from_tree, (&written,), read),
    ensures
        read == Ok::<u8, String>(value),
{
}

/// Round trip of an `i64`: written as a tree and read back, the value is the
/// same.
pub proof fn lemma_round_trip_i64(value: i64, written: Tree, read: Result<i64, String>)
    requires
        call_ensures(<i64 as ToTree>::to_tree, (&value,), Ok::<Tree, String>(written)),
        call_ensures(<i64 as FromTree>::from_tree, (&written,), read),
    ensures
        read == Ok::<i64, String>(value),
{
}

/// Round trip of an `i32`: written as a tree and read back, the value is the
/// same.
pub proof fn lemma_round_trip_i32(value: i32, written: Tree, read: Result<i32, String>)
    requires
        call_ensures(<i32 as ToTree>::to_tree, (&value,), Ok::<Tree, String>(written)),
        call_ensures(<i32 as FromTree>::from_tree, (&written,), read),
    ensures
        read == Ok::<i32, String>(value),
{
}

/// Round trip of a `bool`: written as a tree and read back, the value is the
/// same.
pub proof fn lemma_round_trip_bool(value: bool, written: Tree, read: Result<bool, String>)
    requires
        call_ensures(<bool as ToTree>::to_tree, (&value,), Ok::<Tree, String>(written)),
        call_ensures(<bool as FromTree>::from_tree, (&written,), read),
    ensures
        read == Ok::<bool, String>(value),
{
}

/// Round trip of a string: written as a tree and read back, the text is the
/// same.
pub proof fn lemma_round_trip_string(value: String, written: Tree, read: Result<String, String>)
    requires
        call_ensures(<String as ToTree>::to_tree, (&value,), Ok::<Tree, String>(written)),
        call_ensures(<String as FromTree>::from_tree, (&written,), read),
    ensures
        read matches Ok(text) && text@ == value@,
{
}

/// Round trip of a tree: written and read back, it stands for the same
/// model.
pub proof fn lemma_round_trip_tree(value: Tree, written: Tree, read: Result<Tree, String>)
    requires
        call_ensures(<Tree as ToTree>::to_tree, (&value,), Ok::<Tree, String>(written)),
        call_ensures(<Tree as FromTree>::from_tree, (&written,), read),
    ensures
        read matches Ok(tree) && tree@ == value@,
{
}

} // verus!

//! Method names and the handlers registered under them.
//!
//! A handler is known to the dispatcher by its place in the table: the
//! dispatcher decides which handler a new call belongs to, and the program
//! that owns the handlers runs them.

use vstd::prelude::*;
use vstd::string::StringSliceAdditionalSpecFns;
use crate::bytes::{bytes_eq, copy_range};
use crate::call::CallKind;
use crate::frame::MAX_METHOD_LEN;

verus! {

/// A method of a service: its full name and how its two directions stream.
#[derive(Clone, Debug, PartialEq, Eq)]
pub struct MethodDescriptor {
    pub name: Vec<u8>,
    pub streaming: CallKind,
}

/// What a method descriptor holds, as plain values.
pub struct MethodView {
    pub name: Seq<u8>,
    pub streaming: CallKind,
}

impl View for MethodDescriptor {
    type V = MethodView;

    open spec fn view(&self) -> MethodView {
        MethodView { name: self.name@, streaming: self.streaming }
    }
}

impl MethodDescriptor {
    /// The descriptor of the method called `name`.
    pub fn new(name: &str, streaming: CallKind) -> (d: MethodDescriptor)
        ensures
            d@ == (MethodView { name: name.spec_bytes(), streaming }),
    {
        let bytes = name.as_bytes();
        let owned = copy_range(bytes, 0, bytes.len());
        assert(owned@ =~= name.spec_bytes());
        MethodDescriptor { name: owned, streaming }
    }
}

/// The methods that a table of descriptors holds.
pub open spec fn method_views(methods: Seq<MethodDescriptor>) -> Seq<MethodView> {
    methods.map_values(|m: MethodDescriptor| m@)
}

/// Whether some method of the table is called `name`.
pub open spec fn has_method(methods: Seq<MethodView>, name: Seq<u8>) -> bool {
    exists|i: int| 0 <= i < methods.len() && #[trigger] methods[i].name == name
}

/// The place of the first method called `name`, or the length of the table
/// if there is none.
pub open spec fn first_named(methods: Seq<MethodView>, name: Seq<u8>) -> int
    decreases methods.len(),
{
    if methods.len() == 0 {
        0
    } else if methods[0].name == name {
        0
    } else {
        1 + first_named(methods.drop_first(), name)
    }
}

/// `first_named` finds a method exactly if the table has one of that name,
/// and no method before the one it finds has the name.
pub proof fn lemma_first_named(methods: Seq<MethodView>, name: Seq<u8>)
    ensures
        0 <= first_named(methods, name) <= methods.len(),
        first_named(methods, name) < methods.len() <==> has_method(methods, name),
        first_named(methods, name) < methods.len() ==> methods[first_named(methods, name)].name
            == name,
        forall|i: int| 0 <= i < first_named(methods, name) ==> #[trigger] methods[i].name != name,
    decreases methods.len(),
{
    if methods.len() == 0 {
    } else if methods[0].name == name {
    } else {
        let rest = methods.drop_first();
        lemma_first_named(rest, name);
        let k = first_named(rest, name);
        assert forall|i: int| 0 <= i < 1 + k implies #[trigger] methods[i].name != name by {
            if i > 0 {
                assert(rest[i - 1].name != name);
            }
        }
    }
}

/// Finds the first method called `name` in a table.
pub fn find_in(methods: &Vec<MethodDescriptor>, name: &[u8]) -> (r: Option<usize>)
    ensures
        match r {
            Some(i) => i == first_named(method_views(methods@), name@) && i < methods@.len()
                && methods@[i as int]@.name == name@,
            None => !has_method(method_views(methods@), name@),
        },
{
    let ghost views = method_views(methods@);
    proof {
        lemma_first_named(views, name@);
    }
    let mut i: usize = 0;
    while i < methods.len()
        invariant
            i <= methods@.len(),
            views == method_views(methods@),
            i <= first_named(views, name@),
        decreases methods@.len() - i,
    {
        if bytes_eq(methods[i].name.as_slice(), name) {
            proof {
                lemma_first_named(views, name@);
                assert(views[i as int].name == name@);
            }
            return Some(i);
        }
        proof {
            lemma_first_named(views, name@);
        }
        i = i + 1;
    }
    None
}

/// The methods that handlers are registered under.
pub struct Dispatcher {
    methods: Vec<MethodDescriptor>,
}

impl View for Dispatcher {
    type V = Seq<MethodView>;

    closed spec fn view(&self) -> Seq<MethodView> {
        method_views(self.methods@)
    }
}

/// No two methods of the table have the same name, and every name is one
/// that a frame can carry.
pub open spec fn table_wf(methods: Seq<MethodView>) -> bool {
    &&& forall|i: int, j: int|
        0 <= i < j < methods.len() ==> #[trigger] methods[i].name != #[trigger] methods[j].name
    &&& forall|i: int|
        0 <= i < methods.len() ==> 0 < (#[trigger] methods[i]).name.len() <= MAX_METHOD_LEN
}

impl Dispatcher {
    /// The invariant of a dispatcher: its table is well-formed.
    pub closed spec fn wf(&self) -> bool {
        table_wf(self@)
    }

    /// What `wf` says of the view.
    pub proof fn lemma_wf(&self)
        requires
            self.wf(),
        ensures
            table_wf(self@),
    {
    }

    /// A dispatcher without methods.
    pub fn new() -> (d: Dispatcher)
        ensures
            d.wf(),
            d@ == Seq::<MethodView>::empty(),
    {
        let d = Dispatcher { methods: Vec::new() };
        d
    }

    /// The number of methods registered.
    pub fn len(&self) -> (n: usize)
        ensures
            n == self@.len(),
    {
        self.methods.len()
    }

    /// Registers a handler of the given kind under `name` and gives its
    /// place in the table. A name that is empty, too long for a frame or
    /// already registered is refused, and the table stays as it was.
    pub fn register(&mut self, name: &[u8], streaming: CallKind) -> (r: Option<usize>)
        requires
            old(self).wf(),
        ensures
            final(self).wf(),
            match r {
                Some(i) => {
                    &&& 0 < name@.len() <= MAX_METHOD_LEN
                    &&& !has_method(old(self)@, name@)
                    &&& i == old(self)@.len()
                    &&& final(self)@ == old(self)@.push(MethodView { name: name@, streaming })
                },
                None => {
                    &&& final(self)@ == old(self)@
                    &&& (name@.len() == 0 || name@.len() > MAX_METHOD_LEN || has_method(
                        old(self)@,
                        name@,
                    ))
                },
            },
    {
        let n: usize = name.len();
        if n == 0 || n > MAX_METHOD_LEN {
            return None;
        }
        if let Some(found) = find_in(&self.methods, name) {
            assert(self@[found as int].name == name@);
            return None;
        }
        let at: usize = self.methods.len();
        let owned = copy_range(name, 0, n);
        assert(owned@ =~= name@);
        self.methods.push(MethodDescriptor { name: owned, streaming });
        proof {
            let before = old(self)@;
            let after = self@;
            assert(after =~= before.push(MethodView { name: name@, streaming }));
        }
        Some(at)
    }

    /// The place and the kind of the handler registered under `name`.
    pub fn resolve(&self, name: &[u8]) -> (r: Option<(usize, CallKind)>)
        ensures
            match r {
                Some((i, kind)) => i < self@.len() && self@[i as int] == (MethodView {
                    name: name@,
                    streaming: kind,
                }),
                None => !has_method(self@, name@),
            },
    {
        match find_in(&self.methods, name) {
            Some(i) => Some((i, self.methods[i].streaming)),
            None => None,
        }
    }

    /// The method registered at place `i`.
    pub fn method(&self, i: usize) -> (m: &MethodDescriptor)
        requires
            i < self@.len(),
        ensures
            m@ == self@[i as int],
    {
        &self.methods[i]
    }
}

} // verus!

//! The native function registry: binds a name to a declared signature
//! and a handler, and validates every call the script dispatches —
//! arity first, then left-to-right extraction — before any handler may
//! run.
use vstd::prelude::*;
use crate::extract::extract;
use crate::extract::extract_ok;
use crate::extract::spec_extract_err;
use crate::extract::spec_extracted;
use crate::value::CallError;
use crate::value::Extracted;
use crate::value::ParamKind;
use crate::value::Value;

verus! {

/// The declared signature of one native function.
pub enum Signature {
    /// A fixed parameter list: the arity is its length and each
    /// argument is extracted at the listed kind.
    Exact(Vec<ParamKind>),
    /// Any number of arguments, handed to the handler unconverted
    /// (the debug and stringify functions of the script surface).
    Variadic,
}

/// The mathematical form of a signature.
pub enum SigView {
    Exact(Seq<ParamKind>),
    Variadic,
}

impl View for Signature {
    type V = SigView;

    open spec fn view(&self) -> SigView {
        match self {
            Signature::Exact(ps) => SigView::Exact(ps@),
            Signature::Variadic => SigView::Variadic,
        }
    }
}

/// One registration: a name, the declared signature, and the host's
/// identifier for the handler to invoke once validation succeeds.
pub struct NativeEntry {
    pub name: String,
    pub sig: Signature,
    pub handler: u64,
}

/// The mathematical form of a registration, without its name.
pub struct EntryView {
    pub sig: SigView,
    pub handler: u64,
}

impl View for NativeEntry {
    type V = EntryView;

    open spec fn view(&self) -> EntryView {
        EntryView { sig: self.sig@, handler: self.handler }
    }
}

/// The native function registry.
pub struct Registry {
    entries: Vec<NativeEntry>,
}

impl Registry {
    /// No name is registered twice; `register` replaces instead.
    pub closed spec fn wf(self) -> bool {
        forall|i: int, j: int|
            0 <= i < j < self.entries@.len() ==> (#[trigger] self.entries@[i]).name@ != (
            #[trigger] self.entries@[j]).name@
    }

    /// What is registered under `name`, if anything.
    pub closed spec fn lookup(self, name: Seq<char>) -> Option<EntryView> {
        if exists|i: int| 0 <= i < self.entries@.len() && (#[trigger] self.entries@[i]).name@
            == name {
            let i = choose|i: int|
                0 <= i < self.entries@.len() && (#[trigger] self.entries@[i]).name@ == name;
            Some(self.entries@[i]@)
        } else {
            None
        }
    }

    /// An index holding `name` determines what `lookup` returns.
    proof fn lemma_lookup_at(self, idx: int, name: Seq<char>)
        requires
            self.wf(),
            0 <= idx < self.entries@.len(),
            self.entries@[idx].name@ == name,
        ensures
            self.lookup(name) == Some(self.entries@[idx]@),
    {
        let i = choose|i: int|
            0 <= i < self.entries@.len() && (#[trigger] self.entries@[i]).name@ == name;
        if i != idx {
            assert(self.entries@[i].name@ != self.entries@[idx].name@);
        }
    }

    /// An empty registry: nothing is registered.
    pub fn new() -> (r: Self)
        ensures
            r.wf(),
            forall|n: Seq<char>| r.lookup(n) == None::<EntryView>,
    {
        Registry { entries: Vec::new() }
    }

    /// Install `handler` under `name` with the declared signature,
    /// replacing any prior registration under that name: the last
    /// registration wins and a duplicate name is never an error.
    /// Every other name keeps what it had.
    pub fn register(&mut self, name: String, sig: Signature, handler: u64)
        requires
            old(self).wf(),
        ensures
            final(self).wf(),
            final(self).lookup(name@) == Some(EntryView { sig: sig@, handler }),
            forall|n: Seq<char>|
                n != name@ ==> #[trigger] final(self).lookup(n) == old(self).lookup(n),
    {
        let mut i: usize = 0;
        let n = self.entries.len();
        while i < n
            invariant
                n == self.entries@.len(),
                0 <= i <= n,
                forall|j: int| 0 <= j < i ==> (#[trigger] self.entries@[j]).name@ != name@,
                self.wf(),
                self.entries@ == old(self).entries@,
            decreases n - i,
        {
            if self.entries[i].name == name {
                let e = NativeEntry { name, sig, handler };
                self.entries.set(i, e);
                proof {
                    assert(self.entries@[i as int].name@ == name@);
                    self.lemma_lookup_at(i as int, name@);
                    assert forall|m: Seq<char>| m != name@ implies #[trigger] self.lookup(m) == old(
                        self,
                    ).lookup(m) by {
                        Self::lemma_same_names_same_lookup(*old(self), *self, m);
                    }
                }
                return ;
            }
            i = i + 1;
        }
        let e = NativeEntry { name, sig, handler };
        self.entries.push(e);
        proof {
            assert(self.entries@[n as int].name@ == name@);
            assert(self.wf());
            self.lemma_lookup_at(n as int, name@);
            assert forall|m: Seq<char>| m != name@ implies #[trigger] self.lookup(m) == old(
                self,
            ).lookup(m) by {
                Self::lemma_same_names_same_lookup(*old(self), *self, m);
            }
        }
    }

    /// Two registries that agree on every entry holding `m` agree on
    /// `lookup(m)`.
    proof fn lemma_same_names_same_lookup(a: Self, b: Self, m: Seq<char>)
        requires
            a.wf(),
            b.wf(),
            forall|i: int|
                0 <= i < a.entries@.len() && (#[trigger] a.entries@[i]).name@ == m ==> 0 <= i
                    < b.entries@.len() && b.entries@[i] == a.entries@[i],
            forall|i: int|
                0 <= i < b.entries@.len() && (#[trigger] b.entries@[i]).name@ == m ==> 0 <= i
                    < a.entries@.len() && a.entries@[i] == b.entries@[i],
        ensures
            a.lookup(m) == b.lookup(m),
    {
        if exists|i: int| 0 <= i < a.entries@.len() && (#[trigger] a.entries@[i]).name@ == m {
            let i = choose|i: int|
                0 <= i < a.entries@.len() && (#[trigger] a.entries@[i]).name@ == m;
            a.lemma_lookup_at(i, m);
            b.lemma_lookup_at(i, m);
        } else if exists|i: int| 0 <= i < b.entries@.len() && (#[trigger] b.entries@[i]).name@
            == m {
            let i = choose|i: int|
                0 <= i < b.entries@.len() && (#[trigger] b.entries@[i]).name@ == m;
            assert(0 <= i < a.entries@.len() && a.entries@[i].name@ == m);
        }
    }

    /// How a call must be answered when `name` is bound to a fixed
    /// parameter list: the arity check comes first and a wrong count
    /// never reaches extraction; then the arguments convert left to
    /// right and the first failure is the answer; only a call whose
    /// every argument converts hands the handler its native values.
    pub open spec fn exact_call_result(
        params: Seq<ParamKind>,
        args: Seq<Value>,
        handler: u64,
        r: Result<(u64, Vec<Extracted>), CallError>,
    ) -> bool {
        if args.len() != params.len() {
            r == Err::<(u64, Vec<Extracted>), CallError>(
                CallError::ArityMismatch { expected: params.len() as usize, got: args.len() as usize },
            )
        } else if forall|i: int| 0 <= i < args.len() ==> extract_ok(#[trigger] args[i], params[i]) {
            &&& r matches Ok((h, ex))
            &&& h == handler
            &&& ex@.len() == args.len()
            &&& forall|i: int|
                0 <= i < args.len() ==> #[trigger] ex@[i] == spec_extracted(args[i], params[i])
        } else {
            &&& exists|i: int|
                {
                    &&& 0 <= i < args.len()
                    &&& !extract_ok(#[trigger] args[i], params[i])
                    &&& forall|j: int| 0 <= j < i ==> extract_ok(#[trigger] args[j], params[j])
                    &&& r == Err::<(u64, Vec<Extracted>), CallError>(
                        spec_extract_err(args[i], params[i], i as usize),
                    )
                }
            &&& forall|i: int|
                (0 <= i < args.len() && !extract_ok(#[trigger] args[i], params[i]) && (forall|
                    j: int,
                |
                    0 <= j < i ==> extract_ok(#[trigger] args[j], params[j]))) ==> r == Err::<
                    (u64, Vec<Extracted>),
                    CallError,
                >(spec_extract_err(args[i], params[i], i as usize))
        }
    }

    /// Validate one call from the script. A known name bound to a fixed
    /// parameter list is answered as `exact_call_result` demands; a
    /// variadic binding accepts any count and passes the arguments
    /// through; an unknown name is refused. On success the caller
    /// receives the handler identifier and the extracted arguments; on
    /// failure no handler identifier leaves this function, and nothing
    /// is mutated anywhere, so a rejected call can have no effect.
    #[verifier::loop_isolation(false)]
    pub fn dispatch(&self, name: &String, args: &Vec<Value>) -> (r: Result<
        (u64, Vec<Extracted>),
        CallError,
    >)
        requires
            self.wf(),
        ensures
            match self.lookup(name@) {
                None => r == Err::<(u64, Vec<Extracted>), CallError>(CallError::UnknownFunction),
                Some(entry) => match entry.sig {
                    SigView::Exact(params) => Self::exact_call_result(
                        params,
                        args@,
                        entry.handler,
                        r,
                    ),
                    SigView::Variadic => {
                        &&& r matches Ok((h, ex))
                        &&& h == entry.handler
                        &&& ex@ == args@.map(|i: int, v: Value| Extracted::Raw(v))
                    },
                },
            },
    {
        let n = self.entries.len();
        let mut idx: usize = 0;
        let mut found: bool = false;
        while !found && idx < n
            invariant
                0 <= idx <= n,
                forall|j: int| 0 <= j < idx ==> (#[trigger] self.entries@[j]).name@ != name@,
                found ==> idx < n && self.entries@[idx as int].name@ == name@,
            decreases n - idx, (if found { 0int } else { 1int }),
        {
            if self.entries[idx].name == *name {
                found = true;
            } else {
                idx = idx + 1;
            }
        }
        if !found {
            proof {
                assert(self.lookup(name@) is None);
            }
            return Err(CallError::UnknownFunction);
        }
        let entry = &self.entries[idx];
        proof {
            self.lemma_lookup_at(idx as int, name@);
        }
        match &entry.sig {
            Signature::Variadic => {
                let mut out: Vec<Extracted> = Vec::new();
                let mut i: usize = 0;
                let m = args.len();
                while i < m
                    invariant
                        m == args@.len(),
                        0 <= i <= m,
                        out@.len() == i,
                        forall|j: int|
                            0 <= j < i ==> #[trigger] out@[j] == Extracted::Raw(args@[j]),
                    decreases m - i,
                {
                    out.push(Extracted::Raw(args[i].clone()));
                    i = i + 1;
                }
                proof {
                    assert(out@ =~= args@.map(|i: int, v: Value| Extracted::Raw(v)));
                }
                Ok((entry.handler, out))
            },
            Signature::Exact(params) => {
                if args.len() != params.len() {
                    return Err(
                        CallError::ArityMismatch { expected: params.len(), got: args.len() },
                    );
                }
                let mut out: Vec<Extracted> = Vec::new();
                let mut i: usize = 0;
                let m = args.len();
                while i < m
                    invariant
                        m == args@.len(),
                        args@.len() == params@.len(),
                        0 <= i <= m,
                        out@.len() == i,
                        forall|j: int|
                            0 <= j < i ==> extract_ok(#[trigger] args@[j], params@[j]),
                        forall|j: int|
                            0 <= j < i ==> #[trigger] out@[j] == spec_extracted(
                                args@[j],
                                params@[j],
                            ),
                    decreases m - i,
                {
                    match extract(&args[i], params[i], i) {
                        Ok(e) => {
                            out.push(e);
                        },
                        Err(err) => {
                            proof {
                                assert(exists|k: int|
                                    {
                                        &&& 0 <= k < args@.len()
                                        &&& !extract_ok(#[trigger] args@[k], params@[k])
                                        &&& forall|j: int|
                                            0 <= j < k ==> extract_ok(
                                                #[trigger] args@[j],
                                                params@[j],
                                            )
                                        &&& Err::<(u64, Vec<Extracted>), CallError>(err) == Err::<
                                            (u64, Vec<Extracted>),
                                            CallError,
                                        >(spec_extract_err(args@[k], params@[k], k as usize))
                                    }) by {
                                    assert(!extract_ok(args@[i as int], params@[i as int]));
                                }
                                assert forall|k: int|
                                    (0 <= k < args@.len() && !extract_ok(
                                        #[trigger] args@[k],
                                        params@[k],
                                    ) && (forall|j: int|
                                        0 <= j < k ==> extract_ok(
                                            #[trigger] args@[j],
                                            params@[j],
                                        ))) implies Err::<(u64, Vec<Extracted>), CallError>(err)
                                    == Err::<(u64, Vec<Extracted>), CallError>(
                                    spec_extract_err(args@[k], params@[k], k as usize),
                                ) by {
                                    if k < i as int {
                                        assert(extract_ok(args@[k], params@[k]));
                                    } else if k > i as int {
                                        assert(extract_ok(args@[i as int], params@[i as int]));
                                    }
                                }
                            }
                            return Err(err);
                        },
                    }
                    i = i + 1;
                }
                Ok((entry.handler, out))
            },
        }
    }
}

} // verus!

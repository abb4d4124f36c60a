use vstd::prelude::*;

use crate::error::Error;

verus! {

/// The kinds of native object a context chain owns.
#[derive(Clone, Copy, Debug, PartialEq, Eq, Structural)]
pub enum ResourceKind {
    /// The connection to the driver, root of the chain.
    Instance,
    /// The registration of the debug message callback.
    DebugMessenger,
    /// The presentation surface bound to a window.
    Surface,
    /// The logical device built from one of the enumerated physical devices.
    Device,
    /// The chain of presentable images.
    Swapchain,
}

/// A native object owned by a chain: its kind and its raw handle.
#[derive(Clone, Copy, Debug, PartialEq, Eq, Structural)]
pub struct Resource {
    pub kind: ResourceKind,
    pub handle: u64,
}

/// Whether a resource of kind `a` is created from, and must be torn down before, one of
/// kind `b`.
pub open spec fn needs(a: ResourceKind, b: ResourceKind) -> bool {
    match a {
        ResourceKind::Instance => false,
        ResourceKind::DebugMessenger => b == ResourceKind::Instance,
        ResourceKind::Surface => b == ResourceKind::Instance,
        ResourceKind::Device => b == ResourceKind::Instance,
        ResourceKind::Swapchain => b == ResourceKind::Surface || b == ResourceKind::Device,
    }
}

/// Whether `a` relies on `b`, directly or through other resources.
pub open spec fn depends_on(a: ResourceKind, b: ResourceKind) -> bool {
    needs(a, b) || (a == ResourceKind::Swapchain && b == ResourceKind::Instance)
}

/// Whether the chain holds a resource of kind `k`.
pub open spec fn held(s: Seq<Resource>, k: ResourceKind) -> bool {
    exists|i: int| 0 <= i < s.len() && (#[trigger] s[i]).kind == k
}

/// Whether every prerequisite of kind `k` is held.
pub open spec fn prerequisites_held(s: Seq<Resource>, k: ResourceKind) -> bool {
    forall|b: ResourceKind| #[trigger] needs(k, b) ==> held(s, b)
}

/// Whether a sequence of resources, in creation order, is a chain: no kind twice, and each
/// resource created after its prerequisites.
pub open spec fn chain_valid(s: Seq<Resource>) -> bool {
    &&& forall|i: int, j: int| 0 <= i < j < s.len() ==> s[i].kind != s[j].kind
    &&& forall|i: int, b: ResourceKind|
        0 <= i < s.len() && #[trigger] needs(s[i].kind, b) ==> held(s.take(i), b)
}

/// The native objects of a context, in the order they were created.
///
/// A resource is torn down before every resource it was created from, which is the reverse
/// of the creation order.
pub struct ResourceChain {
    resources: Vec<Resource>,
}

impl View for ResourceChain {
    type V = Seq<Resource>;

    closed spec fn view(&self) -> Seq<Resource> {
        self.resources@
    }
}

impl ResourceChain {
    pub open spec fn wf(&self) -> bool {
        chain_valid(self@)
    }

    /// A chain that holds nothing yet.
    pub fn new() -> (r: Self)
        ensures
            r@ == Seq::<Resource>::empty(),
            r.wf(),
    {
        ResourceChain { resources: Vec::new() }
    }

    /// Whether the chain holds a resource of kind `k`.
    pub fn holds(&self, k: ResourceKind) -> (r: bool)
        ensures
            r == held(self@, k),
    {
        self.handle_of(k).is_some()
    }

    /// The handle of the resource of kind `k`, if the chain holds one.
    pub fn handle_of(&self, k: ResourceKind) -> (r: Option<u64>)
        ensures
            r is None <==> !held(self@, k),
            r matches Some(h) ==> exists|i: int|
                0 <= i < self@.len() && #[trigger] self@[i] == (Resource { kind: k, handle: h }),
    {
        let mut i: usize = 0;
        while i < self.resources.len()
            invariant
                i <= self@.len(),
                self@ == self.resources@,
                forall|j: int| 0 <= j < i ==> (#[trigger] self@[j]).kind != k,
            decreases self@.len() - i,
        {
            let res = self.resources[i];
            if res.kind == k {
                proof {
                    assert(self@[i as int] == (Resource { kind: k, handle: res.handle }));
                }
                return Some(res.handle);
            }
            i = i + 1;
        }
        None
    }

    /// Whether the chain holds every prerequisite of kind `k`.
    pub fn has_prerequisites(&self, k: ResourceKind) -> (r: bool)
        ensures
            r == prerequisites_held(self@, k),
    {
        match k {
            ResourceKind::Instance => {
                proof {
                    assert forall|b: ResourceKind| #[trigger] needs(k, b) implies held(self@, b) by {}
                }
                true
            },
            ResourceKind::DebugMessenger => {
                proof {
                    assert(needs(k, ResourceKind::Instance));
                }
                self.holds(ResourceKind::Instance)
            },
            ResourceKind::Surface => {
                proof {
                    assert(needs(k, ResourceKind::Instance));
                }
                self.holds(ResourceKind::Instance)
            },
            ResourceKind::Device => {
                proof {
                    assert(needs(k, ResourceKind::Instance));
                }
                self.holds(ResourceKind::Instance)
            },
            ResourceKind::Swapchain => {
                let s = self.holds(ResourceKind::Surface);
                let d = self.holds(ResourceKind::Device);
                proof {
                    if !s {
                        assert(needs(k, ResourceKind::Surface));
                    }
                    if !d {
                        assert(needs(k, ResourceKind::Device));
                    }
                }
                s && d
            },
        }
    }

    /// Records a newly created resource: `ResourceHeld` when the chain already holds one of
    /// its kind, `MissingPrerequisite` when it lacks one it is created from.
    pub fn add(&mut self, kind: ResourceKind, handle: u64) -> (r: Result<(), Error>)
        requires
            old(self).wf(),
        ensures
            final(self).wf(),
            r == (if held(old(self)@, kind) {
                Err(Error::ResourceHeld)
            } else if !prerequisites_held(old(self)@, kind) {
                Err(Error::MissingPrerequisite)
            } else {
                Ok(())
            }),
            r is Ok ==> final(self)@ == old(self)@.push(Resource { kind, handle }),
            r is Err ==> final(self)@ == old(self)@,
    {
        if self.holds(kind) {
            return Err(Error::ResourceHeld);
        }
        if !self.has_prerequisites(kind) {
            return Err(Error::MissingPrerequisite);
        }
        let ghost s = self@;
        self.resources.push(Resource { kind, handle });
        proof {
            let t = self@;
            assert(t.take(s.len() as int) =~= s);
            assert forall|i: int, b: ResourceKind|
                0 <= i < t.len() && #[trigger] needs(t[i].kind, b) implies held(t.take(i), b) by {
                if i < s.len() {
                    assert(t.take(i) =~= s.take(i));
                }
            }
        }
        Ok(())
    }

    /// Removes the resource to tear down next, the most recently created one.
    pub fn release(&mut self) -> (r: Option<Resource>)
        requires
            old(self).wf(),
        ensures
            final(self).wf(),
            old(self)@.len() == 0 ==> r is None && final(self)@ == old(self)@,
            old(self)@.len() > 0 ==> r == Some(old(self)@.last()) && final(self)@
                == old(self)@.drop_last(),
    {
        let ghost s = self@;
        let r = self.resources.pop();
        proof {
            if s.len() > 0 {
                let t = self@;
                assert(t =~= s.drop_last());
                assert forall|i: int, b: ResourceKind|
                    0 <= i < t.len() && #[trigger] needs(t[i].kind, b) implies held(t.take(i), b) by {
                    assert(t.take(i) =~= s.take(i));
                    assert(needs(s[i].kind, b));
                }
            }
        }
        r
    }

    /// The resources in the order they are to be torn down.
    pub fn teardown_order(&self) -> (r: Vec<Resource>)
        ensures
            r@ == self@.reverse(),
    {
        let n = self.resources.len();
        let mut r: Vec<Resource> = Vec::new();
        let mut i: usize = n;
        while i > 0
            invariant
                i <= n,
                n == self@.len(),
                self@ == self.resources@,
                r@ == self@.subrange(i as int, n as int).reverse(),
            decreases i,
        {
            i = i - 1;
            r.push(self.resources[i]);
            proof {
                assert(r@ =~= self@.subrange(i as int, n as int).reverse());
            }
        }
        proof {
            assert(self@.subrange(0, n as int) =~= self@);
        }
        r
    }
}

/// What releasing a chain until it is empty yields, release by release: the most recent
/// resource, then what releasing the rest yields.
pub open spec fn released_in_turn(s: Seq<Resource>) -> Seq<Resource>
    decreases s.len(),
{
    if s.len() == 0 {
        seq![]
    } else {
        seq![s.last()] + released_in_turn(s.drop_last())
    }
}

/// Releasing a chain until it is empty yields its resources in exactly the reverse of their
/// creation order, which is the teardown order.
pub proof fn lemma_release_reverses_creation(s: Seq<Resource>)
    ensures
        released_in_turn(s) == s.reverse(),
    decreases s.len(),
{
    if s.len() > 0 {
        lemma_release_reverses_creation(s.drop_last());
        assert(released_in_turn(s) =~= s.reverse());
    }
}

/// In the teardown order of a chain, every resource comes before each resource it depends
/// on, directly or not.
pub proof fn lemma_dependents_torn_down_first(s: Seq<Resource>)
    requires
        chain_valid(s),
    ensures
        forall|i: int, j: int|
            0 <= i < s.len() && 0 <= j < s.len() && depends_on(
                #[trigger] s.reverse()[i].kind,
                #[trigger] s.reverse()[j].kind,
            ) ==> i < j,
{
    assert forall|i: int, j: int|
        0 <= i < s.len() && 0 <= j < s.len() && depends_on(
            #[trigger] s.reverse()[i].kind,
            #[trigger] s.reverse()[j].kind,
        ) implies i < j by {
        let n = s.len() as int;
        let a = n - 1 - i;
        let b = n - 1 - j;
        lemma_created_after_dependencies(s, a, s[b].kind);
        let k = choose|k: int| 0 <= k < a && #[trigger] s[k].kind == s[b].kind;
        if k != b {
            if k < b {
                assert(s[k].kind != s[b].kind);
            } else {
                assert(s[b].kind != s[k].kind);
            }
        }
    }
}

/// A resource is created after every resource it depends on.
pub proof fn lemma_created_after_dependencies(s: Seq<Resource>, a: int, b: ResourceKind)
    requires
        chain_valid(s),
        0 <= a < s.len(),
        depends_on(s[a].kind, b),
    ensures
        exists|k: int| 0 <= k < a && #[trigger] s[k].kind == b,
{
    if needs(s[a].kind, b) {
        assert(held(s.take(a), b));
        let k = choose|k: int| 0 <= k < s.take(a).len() && (#[trigger] s.take(a)[k]).kind == b;
        assert(s[k].kind == b);
    } else {
        // a swapchain relies on the instance through its device
        assert(needs(s[a].kind, ResourceKind::Device));
        assert(held(s.take(a), ResourceKind::Device));
        let d = choose|d: int|
            0 <= d < s.take(a).len() && (#[trigger] s.take(a)[d]).kind == ResourceKind::Device;
        assert(s[d].kind == ResourceKind::Device);
        assert(needs(s[d].kind, ResourceKind::Instance));
        assert(held(s.take(d), ResourceKind::Instance));
        let k = choose|k: int|
            0 <= k < s.take(d).len() && (#[trigger] s.take(d)[k]).kind == ResourceKind::Instance;
        assert(s[k].kind == b);
    }
}

/// A chain tears each of its resources down exactly once.
pub proof fn lemma_each_torn_down_once(s: Seq<Resource>)
    requires
        chain_valid(s),
    ensures
        s.reverse().len() == s.len(),
        forall|i: int| 0 <= i < s.len() ==> s.reverse().contains(#[trigger] s[i]),
        forall|i: int, j: int|
            0 <= i < j < s.len() ==> (#[trigger] s.reverse()[i]).kind != (#[trigger] s.reverse()[j]).kind,
{
    let n = s.len() as int;
    assert forall|i: int| 0 <= i < n implies s.reverse().contains(#[trigger] s[i]) by {
        assert(s.reverse()[n - 1 - i] == s[i]);
    }
    assert forall|i: int, j: int| 0 <= i < j < n implies (#[trigger] s.reverse()[i]).kind
        != (#[trigger] s.reverse()[j]).kind by {
        assert(s[n - 1 - j].kind != s[n - 1 - i].kind);
    }
}

} // verus!

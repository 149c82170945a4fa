use vstd::prelude::*;

use crate::components::git_dependency::GitDependency;
use crate::errors::Error;
use crate::utils::text::str_eq;

verus! {

/// Arena-local identifier of one component: the index at which the component
/// was inserted.  Identifiers are assigned monotonically and never reused
/// within a run.
pub type ComponentID = usize;

#[derive(Clone, Copy, PartialEq, Eq, Structural, Debug)]
pub enum ComponentType {
    Unkonwn,
    Solution,
    GitDependency,
}

/// One node of the component tree.
#[derive(Debug)]
pub struct Component {
    pub name: String,
    pub type_: ComponentType,
    pub target_dir: String,
    pub parent_id: Option<usize>,
    pub children: Vec<usize>,
    pub dep: GitDependency,
}

/// All fields of the two components agree except possibly `children`.
pub open spec fn eq_except_children(a: Component, b: Component) -> bool {
    &&& a.name == b.name
    &&& a.type_ == b.type_
    &&& a.target_dir == b.target_dir
    &&& a.parent_id == b.parent_id
    &&& a.dep == b.dep
}

/// All fields of the two components agree except possibly `parent_id`.
pub open spec fn eq_except_parent(a: Component, b: Component) -> bool {
    &&& a.name == b.name
    &&& a.type_ == b.type_
    &&& a.target_dir == b.target_dir
    &&& a.children == b.children
    &&& a.dep == b.dep
}

impl Component {
    /// Every link of this node (parent or child) refers to an index below `n`,
    /// that is, to a node already present in an arena of `n` nodes.
    pub open spec fn links_within(&self, n: int) -> bool {
        &&& (self.parent_id matches Some(p) ==> p < n)
        &&& (forall|i: int| 0 <= i < self.children@.len() ==> (#[trigger] self.children@[i]) < n)
    }

    /// Records the owning node.  A parent is set at most once: the link is
    /// written only while no parent is recorded yet, and is never mutated
    /// afterwards.
    pub fn set_parent_id(&mut self, parent_id: Option<usize>)
        requires
            old(self).parent_id is None,
        ensures
            final(self).parent_id == parent_id,
            eq_except_parent(*old(self), *final(self)),
    {
        self.parent_id = parent_id;
    }

    pub fn add_child(&mut self, child_id: ComponentID)
        ensures
            final(self).children@ == old(self).children@.push(child_id),
            eq_except_children(*old(self), *final(self)),
    {
        self.children.push(child_id);
    }

    /// Moves every identifier out of `children` onto the end of this node's
    /// child list, in order.
    pub fn add_children(&mut self, children: &mut Vec<usize>)
        ensures
            final(self).children@ == old(self).children@ + old(children)@,
            final(children)@.len() == 0,
            eq_except_children(*old(self), *final(self)),
    {
        self.children.append(children);
    }

    /// Appends every identifier of `children`, in order, without draining it.
    fn extend_children(&mut self, children: &Vec<usize>)
        ensures
            final(self).children@ == old(self).children@ + children@,
            eq_except_children(*old(self), *final(self)),
    {
        let mut i: usize = 0;
        while i < children.len()
            invariant
                i <= children@.len(),
                self.children@ == old(self).children@ + children@.take(i as int),
                eq_except_children(*old(self), *self),
            decreases children@.len() - i,
        {
            self.children.push(children[i]);
            proof {
                let ghost ci = children@[i as int];
                assert(children@.take(i + 1 as int) =~= children@.take(i as int).push(ci));
            }
            i += 1;
        }
        proof {
            assert(children@.take(children@.len() as int) =~= children@);
        }
    }

    pub fn remove_child(&mut self, child_id: ComponentID)
        ensures
            final(self).children@ == old(self).children@.filter(|id: usize| id != child_id),
            eq_except_children(*old(self), *final(self)),
    {
        let mut kept: Vec<usize> = Vec::new();
        let mut i: usize = 0;
        while i < self.children.len()
            invariant
                i <= self.children@.len(),
                kept@ == self.children@.take(i as int).filter(|id: usize| id != child_id),
                *self == *old(self),
            decreases self.children@.len() - i,
        {
            let id = self.children[i];
            proof {
                reveal(Seq::filter);
                assert(self.children@.take(i + 1 as int).drop_last() =~= self.children@.take(
                    i as int,
                ));
                assert(self.children@.take(i + 1 as int).last() == id);
            }
            if id != child_id {
                kept.push(id);
            }
            i += 1;
        }
        proof {
            assert(self.children@.take(self.children@.len() as int) =~= self.children@);
        }
        self.children = kept;
    }
}

/// One attribute of a configuration descriptor as the configuration
/// collaborator hands it over: absent, present with an unusable type, or
/// present with a usable value.
pub enum Attr<T> {
    Missing,
    WrongType,
    Value(T),
}

/// One named descriptor parsed out of a nested configuration file, with each
/// attribute in its raw state.
pub struct RawComponent {
    pub name: String,
    pub type_: Attr<String>,
    pub paths: Attr<Vec<String>>,
    pub url: Attr<String>,
    pub commit: Attr<String>,
    pub branch: Attr<String>,
    pub deps_file: Attr<String>,
}

pub open spec fn attr_to_option<T>(a: Attr<T>) -> Option<T> {
    match a {
        Attr::Value(v) => Some(v),
        _ => None,
    }
}

/// The `type` attribute names one of the two known component kinds.
pub open spec fn attrs_type_ok(raw: RawComponent) -> bool {
    raw.type_ matches Attr::Value(t) && (t@ == "solution"@ || t@ == "git"@)
}

/// Every remaining attribute is usable: the required `url` is present, and no
/// optional attribute carries an unusable value.
pub open spec fn attrs_fields_ok(raw: RawComponent) -> bool {
    &&& !(raw.paths is WrongType)
    &&& raw.url is Value
    &&& !(raw.commit is WrongType)
    &&& !(raw.branch is WrongType)
    &&& !(raw.deps_file is WrongType)
}

/// The result is the error carrying exactly the message `m`.
pub open spec fn err_msg(r: Result<Component, Error>, m: Seq<char>) -> bool {
    r matches Err(e) && e.message@ == m
}

impl Component {
    /// Validates one raw descriptor and builds the node it declares: the
    /// `type` attribute picks the kind, the required `url` and the optional
    /// attributes fill the version-control payload, and the node starts
    /// unlinked with its target directory named after the descriptor.
    pub fn from_attrs(raw: RawComponent) -> (r: Result<Component, Error>)
        ensures
            r is Ok <==> attrs_type_ok(raw) && attrs_fields_ok(raw),
            raw.type_ is Missing ==> err_msg(r, "Could not find field \"type\""@),
            raw.type_ is WrongType ==> err_msg(r, "Invalid value type of field \"type\""@),
            raw.type_ is Value && !attrs_type_ok(raw) ==> err_msg(
                r,
                "unknown component type: "@ + raw.type_->Value_0@,
            ),
            attrs_type_ok(raw) && raw.paths is WrongType ==> err_msg(
                r,
                "Invalid value type of field paths"@,
            ),
            attrs_type_ok(raw) && !(raw.paths is WrongType) && raw.url is Missing ==> err_msg(
                r,
                "Required field url does not exist"@,
            ),
            attrs_type_ok(raw) && !(raw.paths is WrongType) && raw.url is WrongType ==> err_msg(
                r,
                "Invalid value type of field url"@,
            ),
            attrs_type_ok(raw) && !(raw.paths is WrongType) && raw.url is Value && raw.commit
                is WrongType ==> err_msg(r, "Invalid value type of field commit"@),
            attrs_type_ok(raw) && !(raw.paths is WrongType) && raw.url is Value && !(raw.commit
                is WrongType) && raw.branch is WrongType ==> err_msg(
                r,
                "Invalid value type of field branch"@,
            ),
            attrs_type_ok(raw) && !(raw.paths is WrongType) && raw.url is Value && !(raw.commit
                is WrongType) && !(raw.branch is WrongType) && raw.deps_file is WrongType
                ==> err_msg(r, "Invalid value type of field deps_file"@),
            r matches Ok(c) ==> {
                &&& c.name == raw.name
                &&& (c.type_ is Solution <==> (raw.type_ matches Attr::Value(t) && t@
                    == "solution"@))
                &&& (c.type_ is GitDependency <==> (raw.type_ matches Attr::Value(t) && t@
                    == "git"@ && t@ != "solution"@))
                &&& c.target_dir == raw.name
                &&& c.parent_id is None
                &&& c.children@.len() == 0
                &&& c.dep.paths == attr_to_option(raw.paths)
                &&& Some(c.dep.url) == attr_to_option(raw.url)
                &&& c.dep.commit == attr_to_option(raw.commit)
                &&& c.dep.branch == attr_to_option(raw.branch)
                &&& c.dep.deps_file == attr_to_option(raw.deps_file)
            },
    {
        let type_str = match raw.type_ {
            Attr::Missing => {
                return Err(Error::new("Could not find field \"type\"".to_owned()));
            },
            Attr::WrongType => {
                return Err(Error::new("Invalid value type of field \"type\"".to_owned()));
            },
            Attr::Value(t) => t,
        };
        let kind = if str_eq(type_str.as_str(), "solution") {
            ComponentType::Solution
        } else if str_eq(type_str.as_str(), "git") {
            ComponentType::GitDependency
        } else {
            let mut m = String::new();
            m.append("unknown component type: ");
            m.append(type_str.as_str());
            return Err(Error::new(m));
        };
        let paths = match raw.paths {
            Attr::Missing => None,
            Attr::WrongType => {
                return Err(Error::new("Invalid value type of field paths".to_owned()));
            },
            Attr::Value(v) => Some(v),
        };
        let url = match raw.url {
            Attr::Missing => {
                return Err(Error::new("Required field url does not exist".to_owned()));
            },
            Attr::WrongType => {
                return Err(Error::new("Invalid value type of field url".to_owned()));
            },
            Attr::Value(v) => v,
        };
        let commit = match raw.commit {
            Attr::Missing => None,
            Attr::WrongType => {
                return Err(Error::new("Invalid value type of field commit".to_owned()));
            },
            Attr::Value(v) => Some(v),
        };
        let branch = match raw.branch {
            Attr::Missing => None,
            Attr::WrongType => {
                return Err(Error::new("Invalid value type of field branch".to_owned()));
            },
            Attr::Value(v) => Some(v),
        };
        let deps_file = match raw.deps_file {
            Attr::Missing => None,
            Attr::WrongType => {
                return Err(Error::new("Invalid value type of field deps_file".to_owned()));
            },
            Attr::Value(v) => Some(v),
        };
        let target_dir = raw.name.clone();
        Ok(
            Component {
                name: raw.name,
                type_: kind,
                target_dir,
                parent_id: None,
                children: Vec::new(),
                dep: GitDependency { paths, url, commit, branch, deps_file },
            },
        )
    }
}

/// Process-wide, append-only store of component nodes, addressed by
/// `ComponentID`.  Nodes are never removed: an identifier, once issued, stays
/// valid for the rest of the run.
pub struct ComponentArena {
    components: Vec<Component>,
}

impl View for ComponentArena {
    type V = Seq<Component>;

    closed spec fn view(&self) -> Seq<Component> {
        self.components@
    }
}

impl ComponentArena {
    /// Every node's links point at nodes already present.
    pub open spec fn wf(&self) -> bool {
        forall|i: int|
            0 <= i < self@.len() ==> (#[trigger] self@[i]).links_within(self@.len() as int)
    }

    pub fn new() -> (r: Self)
        ensures
            r@ =~= Seq::<Component>::empty(),
    {
        ComponentArena { components: Vec::new() }
    }

    /// The store is held in memory, so the number of nodes fits the machine.
    pub proof fn lemma_len_fits(&self)
        ensures
            self@.len() <= usize::MAX,
    {
        broadcast use vstd::std_specs::vec::axiom_spec_len;

        assert(vstd::std_specs::vec::spec_vec_len(&self.components) == self.components@.len());
    }

    pub fn len(&self) -> (n: usize)
        ensures
            n == self@.len(),
    {
        self.components.len()
    }

    /// Inserts a node and returns its fresh identifier: the index one past
    /// every identifier issued before.  A node whose links stay within the
    /// grown store keeps the store well-formed.
    pub fn add(&mut self, component: Component) -> (id: ComponentID)
        ensures
            final(self)@ == old(self)@.push(component),
            id == old(self)@.len(),
            old(self).wf() && component.links_within(old(self)@.len() + 1 as int)
                ==> final(self).wf(),
    {
        let id = self.components.len();
        self.components.push(component);
        proof {
            if old(self).wf() && component.links_within(old(self)@.len() as int + 1) {
                assert forall|i: int|
                    0 <= i < self@.len() implies (#[trigger] self@[i]).links_within(
                    self@.len() as int,
                ) by {
                    if i < old(self)@.len() {
                        assert(old(self)@[i].links_within(old(self)@.len() as int));
                    }
                }
            }
        }
        id
    }

    /// A read view of the node, or `None` for an identifier never issued.
    pub fn get(&self, id: ComponentID) -> (r: Option<&Component>)
        ensures
            match r {
                Some(c) => id < self@.len() && *c == self@[id as int],
                None => id >= self@.len(),
            },
    {
        if id < self.components.len() {
            Some(&self.components[id])
        } else {
            None
        }
    }

    /// An exclusive-write view of one node.
    pub fn get_mut(&mut self, id: ComponentID) -> (r: &mut Component)
        requires
            id < old(self)@.len(),
        ensures
            *r == old(self)@[id as int],
            final(self)@ == old(self)@.update(id as int, *final(r)),
    {
        &mut self.components[id]
    }
}

/// A parent link, once set, survives the step from `pre` to `post`: the store
/// only grows, and no recorded parent is rewritten.
pub open spec fn parents_preserved(pre: Seq<Component>, post: Seq<Component>) -> bool {
    &&& pre.len() <= post.len()
    &&& forall|i: int|
        0 <= i < pre.len() && (#[trigger] pre[i]).parent_id is Some ==> post[i].parent_id
            == pre[i].parent_id
}

/// Wires freshly inserted nodes under their discovered parent: appends the
/// children, in order, to the parent's child list, and records the parent in
/// each child.  Children are always inserted into the arena before being
/// linked, and are linked while they have no parent yet, so a parent link is
/// written at most once.
pub fn link_children(arena: &mut ComponentArena, parent: ComponentID, children: &Vec<ComponentID>)
    requires
        parent < old(arena)@.len(),
        forall|i: int| 0 <= i < children@.len() ==> (#[trigger] children@[i]) < old(arena)@.len(),
        forall|i: int|
            0 <= i < children@.len() ==> old(arena)@[#[trigger] children@[i] as int].parent_id
                is None,
        forall|i: int| 0 <= i < children@.len() ==> (#[trigger] children@[i]) != parent,
        forall|i: int, j: int| 0 <= i < j < children@.len() ==> children@[i] != children@[j],
    ensures
        final(arena)@.len() == old(arena)@.len(),
        final(arena)@[parent as int].children@ == old(arena)@[parent as int].children@ + children@,
        eq_except_children(old(arena)@[parent as int], final(arena)@[parent as int]),
        forall|i: int|
            0 <= i < children@.len() ==> final(arena)@[#[trigger] children@[i] as int].parent_id
                == Some(parent),
        forall|i: int|
            0 <= i < children@.len() ==> eq_except_parent(
                old(arena)@[#[trigger] children@[i] as int],
                final(arena)@[children@[i] as int],
            ),
        forall|k: int|
            0 <= k < old(arena)@.len() && k != parent && !children@.contains(k as usize)
                ==> final(arena)@[k] == old(arena)@[k],
        parents_preserved(old(arena)@, final(arena)@),
        old(arena).wf() ==> final(arena).wf(),
{
    let p = arena.get_mut(parent);
    p.extend_children(children);
    let ghost mid = arena@;
    let mut i: usize = 0;
    while i < children.len()
        invariant
            i <= children@.len(),
            mid.len() == old(arena)@.len(),
            arena@.len() == mid.len(),
            parent < mid.len(),
            forall|j: int| 0 <= j < children@.len() ==> (#[trigger] children@[j]) < mid.len(),
            forall|j: int| 0 <= j < children@.len() ==> (#[trigger] children@[j]) != parent,
            forall|j: int, k: int| 0 <= j < k < children@.len() ==> children@[j] != children@[k],
            forall|j: int|
                0 <= j < children@.len() ==> mid[#[trigger] children@[j] as int].parent_id is None,
            forall|j: int|
                i <= j < children@.len() ==> arena@[#[trigger] children@[j] as int]
                    == mid[children@[j] as int],
            forall|j: int|
                0 <= j < i ==> arena@[#[trigger] children@[j] as int].parent_id == Some(parent),
            forall|j: int|
                0 <= j < i ==> eq_except_parent(
                    mid[#[trigger] children@[j] as int],
                    arena@[children@[j] as int],
                ),
            forall|k: int|
                0 <= k < mid.len() && !children@.take(i as int).contains(k as usize) ==> arena@[k]
                    == mid[k],
        decreases children@.len() - i,
    {
        let child_id = children[i];
        let c = arena.get_mut(child_id);
        c.set_parent_id(Some(parent));
        proof {
            assert forall|k: int|
                0 <= k < mid.len() && !(#[trigger] children@.take(i + 1 as int).contains(
                    k as usize,
                )) implies !children@.take(i as int).contains(k as usize) && k != child_id by {
                if children@.take(i as int).contains(k as usize) {
                    let j = choose|j: int|
                        0 <= j < i && children@.take(i as int)[j] == k as usize;
                    assert(children@.take(i + 1 as int)[j] == k as usize);
                }
                assert(children@.take(i + 1 as int)[i as int] == child_id);
            }
        }
        i += 1;
    }
    proof {
        assert(children@.take(children@.len() as int) =~= children@);
        if children@.contains(parent) {
            let j = choose|j: int| 0 <= j < children@.len() && children@[j] == parent;
            assert(children@[j] == parent);
            assert(false);
        }
        assert(arena@[parent as int] == mid[parent as int]);
        old(arena).lemma_len_fits();
        assert forall|k: int|
            0 <= k < old(arena)@.len() && k != parent && !children@.contains(
                k as usize,
            ) implies arena@[k] == old(arena)@[k] by {
            assert(!children@.take(children@.len() as int).contains(k as usize));
            assert(arena@[k] == mid[k]);
        }
        assert forall|i: int|
            0 <= i < old(arena)@.len() && (#[trigger] old(arena)@[i]).parent_id
                is Some implies arena@[i].parent_id == old(arena)@[i].parent_id by {
            if children@.contains(i as usize) {
                let j = choose|j: int| 0 <= j < children@.len() && children@[j] == i as usize;
                assert(children@[j] == i as usize);
                assert(children@[j] as int == i);
                assert(old(arena)@[children@[j] as int].parent_id is None);
                assert(false);
            } else if i == parent {
                assert(arena@[i].parent_id == old(arena)@[i].parent_id);
            } else {
                assert(!children@.take(children@.len() as int).contains(i as usize));
                assert(arena@[i] == mid[i]);
                assert(mid[i] == old(arena)@[i]);
            }
        }
        if old(arena).wf() {
            assert forall|n: int|
                0 <= n < arena@.len() implies (#[trigger] arena@[n]).links_within(
                arena@.len() as int,
            ) by {
                assert(old(arena)@[n].links_within(old(arena)@.len() as int));
                if n == parent {
                    let oldc = old(arena)@[parent as int].children@;
                    assert forall|j: int|
                        0 <= j < arena@[n].children@.len() implies (#[trigger] arena@[
                        n
                    ].children@[j]) < arena@.len() by {
                        if j < oldc.len() {
                            assert(arena@[n].children@[j] == oldc[j]);
                        } else {
                            assert(arena@[n].children@[j] == children@[j - oldc.len()]);
                        }
                    }
                } else if children@.contains(n as usize) {
                    let j = choose|j: int|
                        0 <= j < children@.len() && children@[j] == n as usize;
                    assert(children@[j] as int == n);
                    assert(arena@[n].parent_id == Some(parent));
                    assert(eq_except_parent(mid[children@[j] as int], arena@[n]));
                    assert(mid[n] == old(arena)@[n]);
                } else {
                    assert(!children@.take(children@.len() as int).contains(n as usize));
                    assert(arena@[n] == mid[n]);
                    assert(mid[n] == old(arena)@[n]);
                }
            }
        }
    }
}

/// Which visit applies to one node: a solution visit for `Solution` nodes, a
/// plain version-control visit for `GitDependency` nodes, and an error for an
/// identifier never issued or a kind never recognized.
#[derive(Debug)]
pub enum VisitRoute {
    SolutionVisit,
    GitVisit,
}

pub fn visit_route(arena: &ComponentArena, id: ComponentID) -> (r: Result<VisitRoute, Error>)
    ensures
        r is Ok ==> id < arena@.len(),
        r matches Ok(v) ==> {
            &&& (v is SolutionVisit <==> arena@[id as int].type_ is Solution)
            &&& (v is GitVisit <==> arena@[id as int].type_ is GitDependency)
        },
        id >= arena@.len() ==> err_msg_route(r, "unknown component id"@),
        id < arena@.len() && arena@[id as int].type_ is Unkonwn ==> err_msg_route(
            r,
            "unknown component type"@,
        ),
{
    match arena.get(id) {
        None => Err(Error::new("unknown component id".to_owned())),
        Some(comp) => match comp.type_ {
            ComponentType::Solution => Ok(VisitRoute::SolutionVisit),
            ComponentType::GitDependency => Ok(VisitRoute::GitVisit),
            ComponentType::Unkonwn => Err(Error::new("unknown component type".to_owned())),
        },
    }
}

/// The result is the error carrying exactly the message `m`.
pub open spec fn err_msg_route(r: Result<VisitRoute, Error>, m: Seq<char>) -> bool {
    r matches Err(e) && e.message@ == m
}

/// The message under which a failed visit of one component is reported: it
/// names the failing component before the underlying cause.
pub open spec fn component_failure_message(name: Seq<char>, cause: Seq<char>) -> Seq<char> {
    "component "@ + name + ": "@ + cause
}

/// Bookkeeping of one traversal: the identifiers still to visit in first-in
/// first-out order, the identifiers already handed out for visiting, and the
/// first failure observed.  Children enter the queue only through
/// `complete_ok` on their parent, so a child is never handed out before its
/// parent's own visit has completed.
pub struct Walk {
    pub pending: Vec<ComponentID>,
    pub visited: Vec<ComponentID>,
    pub failure: Option<Error>,
}

impl Walk {
    /// Seeds the queue with the given roots.
    pub fn new(roots: Vec<ComponentID>) -> (w: Walk)
        ensures
            w.pending@ == roots@,
            w.visited@ =~= Seq::<ComponentID>::empty(),
            w.failure is None,
    {
        Walk { pending: roots, visited: Vec::new(), failure: None }
    }

    /// Hands out the next identifier to visit, in the order the identifiers
    /// were discovered, or `None` once the queue is empty.
    pub fn take_next(&mut self) -> (r: Option<ComponentID>)
        ensures
            old(self).pending@.len() == 0 ==> r is None && *final(self) == *old(self),
            old(self).pending@.len() > 0 ==> {
                &&& r == Some(old(self).pending@[0])
                &&& final(self).pending@ == old(self).pending@.skip(1)
                &&& final(self).visited@ == old(self).visited@.push(old(self).pending@[0])
                &&& final(self).failure == old(self).failure
            },
    {
        if self.pending.len() == 0 {
            return None;
        }
        let id = self.pending.remove(0);
        self.visited.push(id);
        Some(id)
    }

    /// Records that a visit succeeded and enqueues the children it linked, in
    /// discovery order.
    pub fn complete_ok(&mut self, children: &Vec<ComponentID>)
        ensures
            final(self).pending@ == old(self).pending@ + children@,
            final(self).visited == old(self).visited,
            final(self).failure == old(self).failure,
    {
        let mut i: usize = 0;
        while i < children.len()
            invariant
                i <= children@.len(),
                self.pending@ == old(self).pending@ + children@.take(i as int),
                self.visited == old(self).visited,
                self.failure == old(self).failure,
            decreases children@.len() - i,
        {
            self.pending.push(children[i]);
            proof {
                let ghost ci = children@[i as int];
                assert(children@.take(i + 1 as int) =~= children@.take(i as int).push(ci));
            }
            i += 1;
        }
        proof {
            assert(children@.take(children@.len() as int) =~= children@);
        }
    }

    /// Records that the visit of the named component failed.  The first
    /// failure wins: a later one never displaces it.  No children are
    /// enqueued for a failed visit.
    pub fn complete_err(&mut self, name: &str, err: Error)
        ensures
            final(self).pending == old(self).pending,
            final(self).visited == old(self).visited,
            old(self).failure is Some ==> final(self).failure == old(self).failure,
            old(self).failure is None ==> (final(self).failure matches Some(e) && e.message@
                == component_failure_message(name@, err.message@)),
    {
        if self.failure.is_none() {
            let mut m = String::new();
            m.append("component ");
            m.append(name);
            m.append(": ");
            m.append(err.message.as_str());
            proof {
                assert(m@ =~= component_failure_message(name@, err.message@));
            }
            self.failure = Some(Error::new(m));
        }
    }

    pub fn is_done(&self) -> (r: bool)
        ensures
            r == (self.pending@.len() == 0),
    {
        self.pending.len() == 0
    }

    /// The overall outcome: the first failure if any visit failed, otherwise
    /// the identifiers actually visited, in the order they were handed out.
    pub fn into_result(self) -> (r: Result<Vec<ComponentID>, Error>)
        ensures
            self.failure is None ==> (r matches Ok(ids) && ids == self.visited),
            self.failure matches Some(e) ==> r == Result::<Vec<ComponentID>, Error>::Err(e),
    {
        match self.failure {
            Some(e) => Err(e),
            None => Ok(self.visited),
        }
    }
}

/// Builds the synthetic root node for a traversal started from a directory or
/// URL: a solution named `(main)` whose target directory is the root
/// directory itself, carrying the requested ref state.  The declared
/// nested-configuration path is kept only when it exists under the root.
pub fn make_root_component(
    root_dir: &str,
    url: String,
    branch: Option<String>,
    commit: Option<String>,
    deps_file: Option<String>,
    deps_file_exists: bool,
) -> (c: Component)
    ensures
        c.name@ == "(main)"@,
        c.type_ is Solution,
        c.target_dir@ == root_dir@,
        c.parent_id is None,
        c.children@.len() == 0,
        c.dep.paths is None,
        c.dep.url == url,
        c.dep.branch == branch,
        c.dep.commit == commit,
        c.dep.deps_file == (if deps_file_exists {
            deps_file
        } else {
            Option::<String>::None
        }),
{
    Component {
        name: "(main)".to_owned(),
        type_: ComponentType::Solution,
        target_dir: root_dir.to_owned(),
        parent_id: None,
        children: Vec::new(),
        dep: GitDependency {
            paths: None,
            url,
            branch,
            commit,
            deps_file: if deps_file_exists {
                deps_file
            } else {
                None
            },
        },
    }
}

/// Parent stability composes: if no set parent is rewritten from `a` to `b`,
/// nor from `b` to `c`, then none is rewritten from `a` to `c`.  Together with
/// the `parents_preserved` clause that every linking operation of the arena
/// ensures, a parent link is set at most once over any sequence of operations.
pub proof fn lemma_parents_preserved_trans(a: Seq<Component>, b: Seq<Component>, c: Seq<Component>)
    requires
        parents_preserved(a, b),
        parents_preserved(b, c),
    ensures
        parents_preserved(a, c),
{
}

} // verus!

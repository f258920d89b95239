//! Workspace bindings: which workspace folder was last opened for which
//! container, and the store that remembers them.
//!
//! A binding names a container by cluster context, namespace and container
//! name, and carries a set of labels that a pod must have for the binding to
//! apply. The store keeps bindings in the order in which they were added and
//! answers with the first one that applies.

use crate::labels::{is_hash_key, stable_labels, Labels};
use crate::text::{option_text, str_eq};
use vstd::prelude::*;

verus! {

/// A remembered workspace folder for a container.
#[derive(Debug)]
pub struct WorkspaceBinding {
    pub context: String,
    pub namespace: String,
    pub container_name: String,
    pub workspace_folder: String,
    pub labels: Labels,
}

/// What a [`WorkspaceBinding`] holds.
pub struct BindingView {
    pub context: Seq<char>,
    pub namespace: Seq<char>,
    pub container_name: Seq<char>,
    pub workspace_folder: Seq<char>,
    pub labels: Map<Seq<char>, Seq<char>>,
}

impl View for WorkspaceBinding {
    type V = BindingView;

    open spec fn view(&self) -> BindingView {
        BindingView {
            context: self.context@,
            namespace: self.namespace@,
            container_name: self.container_name@,
            workspace_folder: self.workspace_folder@,
            labels: self.labels@,
        }
    }
}

impl BindingView {
    /// The binding applies to a container when context, namespace and
    /// container name are equal and every label of the binding is among
    /// `labels` with the same value. `labels` may hold more.
    pub open spec fn applies_to(
        self,
        context: Seq<char>,
        namespace: Seq<char>,
        container_name: Seq<char>,
        labels: Map<Seq<char>, Seq<char>>,
    ) -> bool {
        &&& self.context == context
        &&& self.namespace == namespace
        &&& self.container_name == container_name
        &&& self.labels.submap_of(labels)
    }

    /// The binding with another workspace folder.
    pub open spec fn with_folder(self, workspace_folder: Seq<char>) -> BindingView {
        BindingView { workspace_folder, ..self }
    }
}

/// The binding that is stored for a container that had none: the labels are
/// kept without their hash keys.
pub open spec fn fresh_binding(
    context: Seq<char>,
    namespace: Seq<char>,
    container_name: Seq<char>,
    labels: Map<Seq<char>, Seq<char>>,
    workspace_folder: Seq<char>,
) -> BindingView {
    BindingView { context, namespace, container_name, workspace_folder, labels: stable_labels(labels) }
}

/// The index of the first binding that applies to the container, if any does.
pub open spec fn first_match(
    bindings: Seq<BindingView>,
    context: Seq<char>,
    namespace: Seq<char>,
    container_name: Seq<char>,
    labels: Map<Seq<char>, Seq<char>>,
) -> Option<int>
    decreases bindings.len(),
{
    if bindings.len() == 0 {
        None
    } else {
        match first_match(bindings.drop_last(), context, namespace, container_name, labels) {
            Some(i) => Some(i),
            None => if bindings.last().applies_to(context, namespace, container_name, labels) {
                Some(bindings.len() - 1)
            } else {
                None
            },
        }
    }
}

/// The workspace folder of the first binding that applies to the container.
pub open spec fn resolved_folder(
    bindings: Seq<BindingView>,
    context: Seq<char>,
    namespace: Seq<char>,
    container_name: Seq<char>,
    labels: Map<Seq<char>, Seq<char>>,
) -> Option<Seq<char>> {
    match first_match(bindings, context, namespace, container_name, labels) {
        Some(i) => Some(bindings[i].workspace_folder),
        None => None,
    }
}

/// The bindings after `workspace_folder` was opened for the container: the
/// first binding that applies gets the new folder and is otherwise left as it
/// is; where none applies, a fresh binding is added at the end.
pub open spec fn upserted(
    bindings: Seq<BindingView>,
    context: Seq<char>,
    namespace: Seq<char>,
    container_name: Seq<char>,
    labels: Map<Seq<char>, Seq<char>>,
    workspace_folder: Seq<char>,
) -> Seq<BindingView> {
    match first_match(bindings, context, namespace, container_name, labels) {
        Some(i) => bindings.update(i, bindings[i].with_folder(workspace_folder)),
        None => bindings.push(
            fresh_binding(context, namespace, container_name, labels, workspace_folder),
        ),
    }
}

/// `first_match` is the least index of a binding that applies, and `None`
/// exactly when no binding applies.
pub proof fn lemma_first_match(
    bindings: Seq<BindingView>,
    context: Seq<char>,
    namespace: Seq<char>,
    container_name: Seq<char>,
    labels: Map<Seq<char>, Seq<char>>,
)
    ensures
        match first_match(bindings, context, namespace, container_name, labels) {
            Some(i) => {
                &&& 0 <= i < bindings.len()
                &&& bindings[i].applies_to(context, namespace, container_name, labels)
                &&& forall|j: int|
                    0 <= j < i ==> !(#[trigger] bindings[j]).applies_to(
                        context,
                        namespace,
                        container_name,
                        labels,
                    )
            },
            None => forall|j: int|
                0 <= j < bindings.len() ==> !(#[trigger] bindings[j]).applies_to(
                    context,
                    namespace,
                    container_name,
                    labels,
                ),
        },
    decreases bindings.len(),
{
    if bindings.len() > 0 {
        let front = bindings.drop_last();
        lemma_first_match(front, context, namespace, container_name, labels);
        match first_match(front, context, namespace, container_name, labels) {
            Some(i) => {
                assert(front[i] == bindings[i]);
                assert forall|j: int| 0 <= j < i implies !(#[trigger] bindings[j]).applies_to(
                    context,
                    namespace,
                    container_name,
                    labels,
                ) by {
                    assert(front[j] == bindings[j]);
                }
            },
            None => {
                assert forall|j: int| 0 <= j < bindings.len() - 1 implies !(#[trigger] bindings[j]).applies_to(
                    context,
                    namespace,
                    container_name,
                    labels,
                ) by {
                    assert(front[j] == bindings[j]);
                }
            },
        }
    }
}

/// An index is the first match if a binding applies there and none applies
/// before it.
pub proof fn lemma_first_match_is(
    bindings: Seq<BindingView>,
    context: Seq<char>,
    namespace: Seq<char>,
    container_name: Seq<char>,
    labels: Map<Seq<char>, Seq<char>>,
    at: int,
)
    requires
        0 <= at < bindings.len(),
        bindings[at].applies_to(context, namespace, container_name, labels),
        forall|j: int|
            0 <= j < at ==> !(#[trigger] bindings[j]).applies_to(
                context,
                namespace,
                container_name,
                labels,
            ),
    ensures
        first_match(bindings, context, namespace, container_name, labels) == Some(at),
{
    lemma_first_match(bindings, context, namespace, container_name, labels);
}

/// Of the bindings, the one at `at` applies to the container and no other does.
pub open spec fn applies_only_at(
    bindings: Seq<BindingView>,
    context: Seq<char>,
    namespace: Seq<char>,
    container_name: Seq<char>,
    labels: Map<Seq<char>, Seq<char>>,
    at: int,
) -> bool {
    &&& 0 <= at < bindings.len()
    &&& forall|j: int|
        0 <= j < bindings.len() ==> ((#[trigger] bindings[j]).applies_to(
            context,
            namespace,
            container_name,
            labels,
        ) <==> j == at)
}

/// No two of the bindings apply to the container.
pub open spec fn at_most_one_applies(
    bindings: Seq<BindingView>,
    context: Seq<char>,
    namespace: Seq<char>,
    container_name: Seq<char>,
    labels: Map<Seq<char>, Seq<char>>,
) -> bool {
    forall|i: int, j: int|
        0 <= i < bindings.len() && 0 <= j < bindings.len() && (#[trigger] bindings[i]).applies_to(
            context,
            namespace,
            container_name,
            labels,
        ) && (#[trigger] bindings[j]).applies_to(context, namespace, container_name, labels) ==> i
            == j
}

/// Resolution is a function of what the store holds and of the container:
/// two resolutions of one container against one store give one folder.
pub proof fn lemma_resolution_deterministic(
    bindings: Seq<BindingView>,
    context: Seq<char>,
    namespace: Seq<char>,
    container_name: Seq<char>,
    labels: Map<Seq<char>, Seq<char>>,
    first: Option<Seq<char>>,
    second: Option<Seq<char>>,
)
    requires
        first == resolved_folder(bindings, context, namespace, container_name, labels),
        second == resolved_folder(bindings, context, namespace, container_name, labels),
    ensures
        first == second,
{
}

/// A binding without labels applies to every pod of its container, whatever
/// labels the pod has.
pub proof fn lemma_unlabelled_binding_applies(
    binding: BindingView,
    labels: Map<Seq<char>, Seq<char>>,
)
    requires
        binding.labels == Map::<Seq<char>, Seq<char>>::empty(),
    ensures
        binding.applies_to(binding.context, binding.namespace, binding.container_name, labels),
{
}

/// Whether a binding applies does not depend on its workspace folder.
pub proof fn lemma_folder_is_irrelevant(
    binding: BindingView,
    workspace_folder: Seq<char>,
    context: Seq<char>,
    namespace: Seq<char>,
    container_name: Seq<char>,
    labels: Map<Seq<char>, Seq<char>>,
)
    ensures
        binding.with_folder(workspace_folder).applies_to(context, namespace, container_name, labels)
            == binding.applies_to(context, namespace, container_name, labels),
{
}

/// A binding that is stored anew holds none of the hash keys of the labels it
/// was made from, and every other label with its value.
pub proof fn lemma_fresh_binding_labels(
    bindings: Seq<BindingView>,
    context: Seq<char>,
    namespace: Seq<char>,
    container_name: Seq<char>,
    labels: Map<Seq<char>, Seq<char>>,
    workspace_folder: Seq<char>,
)
    requires
        first_match(bindings, context, namespace, container_name, labels) is None,
    ensures
        ({
            let after = upserted(
                bindings,
                context,
                namespace,
                container_name,
                labels,
                workspace_folder,
            );
            let stored = after.last().labels;
            &&& after.len() == bindings.len() + 1
            &&& forall|key: Seq<char>| is_hash_key(key) ==> !#[trigger] stored.contains_key(key)
            &&& forall|key: Seq<char>|
                !is_hash_key(key) ==> (#[trigger] stored.contains_key(key) <==> labels.contains_key(
                    key,
                ))
            &&& forall|key: Seq<char>| #[trigger]
                stored.contains_key(key) ==> stored[key] == labels[key]
        }),
{
}

/// After an upsert the container resolves to the folder that was given: the
/// binding that now applies first is the one that applied first before, or
/// the new one at the end.
pub proof fn lemma_upsert_then_resolve(
    bindings: Seq<BindingView>,
    context: Seq<char>,
    namespace: Seq<char>,
    container_name: Seq<char>,
    labels: Map<Seq<char>, Seq<char>>,
    workspace_folder: Seq<char>,
)
    ensures
        ({
            let after = upserted(
                bindings,
                context,
                namespace,
                container_name,
                labels,
                workspace_folder,
            );
            &&& first_match(after, context, namespace, container_name, labels) == Some(
                match first_match(bindings, context, namespace, container_name, labels) {
                    Some(i) => i,
                    None => bindings.len() as int,
                },
            )
            &&& resolved_folder(after, context, namespace, container_name, labels) == Some(
                workspace_folder,
            )
        }),
{
    let after = upserted(bindings, context, namespace, container_name, labels, workspace_folder);
    lemma_first_match(bindings, context, namespace, container_name, labels);
    match first_match(bindings, context, namespace, container_name, labels) {
        Some(i) => {
            assert forall|j: int| 0 <= j < i implies !(#[trigger] after[j]).applies_to(
                context,
                namespace,
                container_name,
                labels,
            ) by {
                assert(after[j] == bindings[j]);
            }
            lemma_first_match_is(after, context, namespace, container_name, labels, i);
        },
        None => {
            let at = bindings.len() as int;
            assert forall|j: int| 0 <= j < at implies !(#[trigger] after[j]).applies_to(
                context,
                namespace,
                container_name,
                labels,
            ) by {
                assert(after[j] == bindings[j]);
            }
            lemma_first_match_is(after, context, namespace, container_name, labels, at);
        },
    }
}

/// Upserting twice for one container stores at most one binding: the second
/// upsert adds none, it only gives the binding that the first one wrote the
/// second folder. Where no two bindings applied to the container before, exactly
/// one applies afterwards, and it holds the second folder.
pub proof fn lemma_upsert_twice(
    bindings: Seq<BindingView>,
    context: Seq<char>,
    namespace: Seq<char>,
    container_name: Seq<char>,
    labels: Map<Seq<char>, Seq<char>>,
    first_folder: Seq<char>,
    second_folder: Seq<char>,
)
    ensures
        ({
            let once = upserted(bindings, context, namespace, container_name, labels, first_folder);
            let twice = upserted(once, context, namespace, container_name, labels, second_folder);
            let at = first_match(once, context, namespace, container_name, labels);
            &&& at is Some
            &&& twice == once.update(at->0, once[at->0].with_folder(second_folder))
            &&& twice.len() == once.len()
            &&& resolved_folder(twice, context, namespace, container_name, labels) == Some(
                second_folder,
            )
            &&& at_most_one_applies(bindings, context, namespace, container_name, labels)
                ==> applies_only_at(twice, context, namespace, container_name, labels, at->0)
        }),
{
    let once = upserted(bindings, context, namespace, container_name, labels, first_folder);
    let twice = upserted(once, context, namespace, container_name, labels, second_folder);
    lemma_upsert_then_resolve(bindings, context, namespace, container_name, labels, first_folder);
    lemma_upsert_then_resolve(once, context, namespace, container_name, labels, second_folder);
    lemma_first_match(bindings, context, namespace, container_name, labels);
    lemma_first_match(once, context, namespace, container_name, labels);
    let at = first_match(once, context, namespace, container_name, labels)->0;
    if at_most_one_applies(bindings, context, namespace, container_name, labels) {
        assert forall|j: int| 0 <= j < twice.len() implies ((#[trigger] twice[j]).applies_to(
            context,
            namespace,
            container_name,
            labels,
        ) <==> j == at) by {
            if j != at {
                assert(twice[j] == once[j]);
                if j < bindings.len() {
                    assert(once[j].applies_to(context, namespace, container_name, labels)
                        == bindings[j].applies_to(context, namespace, container_name, labels));
                    if at < bindings.len() {
                        assert(bindings[at].applies_to(context, namespace, container_name, labels));
                    }
                }
            }
        }
    }
}

impl WorkspaceBinding {
    /// Whether the binding applies to the container.
    pub fn applies_to(
        &self,
        context: &str,
        namespace: &str,
        container_name: &str,
        labels: &Labels,
    ) -> (applies: bool)
        ensures
            applies == self@.applies_to(context@, namespace@, container_name@, labels@),
    {
        str_eq(self.context.as_str(), context) && str_eq(self.namespace.as_str(), namespace)
            && str_eq(self.container_name.as_str(), container_name) && self.labels.is_subset_of(
            labels,
        )
    }
}

impl Clone for WorkspaceBinding {
    fn clone(&self) -> (copy: Self)
        ensures
            copy@ == self@,
    {
        WorkspaceBinding {
            context: self.context.clone(),
            namespace: self.namespace.clone(),
            container_name: self.container_name.clone(),
            workspace_folder: self.workspace_folder.clone(),
            labels: self.labels.clone(),
        }
    }
}

/// What a list of bindings holds, in order.
pub open spec fn binding_views(bindings: Seq<WorkspaceBinding>) -> Seq<BindingView> {
    Seq::new(bindings.len(), |i: int| bindings[i]@)
}

/// The remembered bindings, oldest first.
///
/// The store does not keep bindings apart: two of them may apply to one
/// container, and then the one that was added first is used.
#[derive(Debug)]
pub struct BindingStore {
    pub bindings: Vec<WorkspaceBinding>,
}

impl View for BindingStore {
    type V = Seq<BindingView>;

    open spec fn view(&self) -> Seq<BindingView> {
        binding_views(self.bindings@)
    }
}

impl BindingStore {
    /// A store without bindings.
    pub fn new() -> (store: BindingStore)
        ensures
            store@ == Seq::<BindingView>::empty(),
    {
        let store = BindingStore { bindings: Vec::new() };
        assert(store@ =~= Seq::<BindingView>::empty());
        store
    }

    /// The store for what was persisted: the persisted list, or no binding
    /// where nothing usable was persisted.
    pub fn load(persisted: Option<Vec<WorkspaceBinding>>) -> (store: BindingStore)
        ensures
            store@ == match persisted {
                Some(bindings) => binding_views(bindings@),
                None => Seq::<BindingView>::empty(),
            },
    {
        match persisted {
            Some(bindings) => BindingStore { bindings },
            None => BindingStore::new(),
        }
    }

    /// The number of bindings.
    pub fn len(&self) -> (count: usize)
        ensures
            count == self@.len(),
    {
        self.bindings.len()
    }

    /// The index of the first binding that applies to the container.
    pub fn find_match(
        &self,
        context: &str,
        namespace: &str,
        container_name: &str,
        labels: &Labels,
    ) -> (found: Option<usize>)
        ensures
            match found {
                Some(i) => i < self@.len() && first_match(
                    self@,
                    context@,
                    namespace@,
                    container_name@,
                    labels@,
                ) == Some(i as int),
                None => first_match(self@, context@, namespace@, container_name@, labels@) is None,
            },
    {
        let mut i: usize = 0;
        while i < self.bindings.len()
            invariant
                i <= self.bindings@.len(),
                forall|j: int|
                    0 <= j < i ==> !(#[trigger] self@[j]).applies_to(
                        context@,
                        namespace@,
                        container_name@,
                        labels@,
                    ),
            decreases self.bindings@.len() - i,
        {
            if self.bindings[i].applies_to(context, namespace, container_name, labels) {
                proof {
                    lemma_first_match_is(
                        self@,
                        context@,
                        namespace@,
                        container_name@,
                        labels@,
                        i as int,
                    );
                }
                return Some(i);
            }
            i += 1;
        }
        proof {
            lemma_first_match(self@, context@, namespace@, container_name@, labels@);
        }
        None
    }

    /// The workspace folder that was remembered for the container.
    pub fn resolve_workspace_folder(
        &self,
        context: &str,
        namespace: &str,
        container_name: &str,
        labels: &Labels,
    ) -> (folder: Option<String>)
        ensures
            option_text(folder) == resolved_folder(
                self@,
                context@,
                namespace@,
                container_name@,
                labels@,
            ),
    {
        match self.find_match(context, namespace, container_name, labels) {
            Some(i) => Some(self.bindings[i].workspace_folder.clone()),
            None => None,
        }
    }

    /// Remembers that `workspace_folder` was opened for the container.
    ///
    /// The match is made with `labels` as given. A binding that applies only
    /// gets the new folder; a new binding is stored without the hash keys of
    /// `labels`.
    pub fn upsert(
        &mut self,
        context: &str,
        namespace: &str,
        container_name: &str,
        labels: &Labels,
        workspace_folder: &str,
    )
        ensures
            final(self)@ == upserted(
                old(self)@,
                context@,
                namespace@,
                container_name@,
                labels@,
                workspace_folder@,
            ),
    {
        match self.find_match(context, namespace, container_name, labels) {
            Some(i) => {
                let mut binding = self.bindings[i].clone();
                binding.workspace_folder = workspace_folder.to_owned();
                self.bindings.set(i, binding);
            },
            None => {
                self.bindings.push(
                    WorkspaceBinding {
                        context: context.to_owned(),
                        namespace: namespace.to_owned(),
                        container_name: container_name.to_owned(),
                        workspace_folder: workspace_folder.to_owned(),
                        labels: labels.without_hash_keys(),
                    },
                );
            },
        }
        assert(self@ =~= upserted(
            old(self)@,
            context@,
            namespace@,
            container_name@,
            labels@,
            workspace_folder@,
        ));
    }
}

impl Clone for BindingStore {
    fn clone(&self) -> (copy: Self)
        ensures
            copy@ == self@,
    {
        let mut bindings: Vec<WorkspaceBinding> = Vec::new();
        let mut i: usize = 0;
        while i < self.bindings.len()
            invariant
                i <= self.bindings@.len(),
                bindings@.len() == i,
                forall|j: int| 0 <= j < i ==> (#[trigger] bindings@[j])@ == self.bindings@[j]@,
            decreases self.bindings@.len() - i,
        {
            bindings.push(self.bindings[i].clone());
            i += 1;
        }
        let copy = BindingStore { bindings };
        assert(copy@ =~= self@);
        copy
    }
}

} // verus!

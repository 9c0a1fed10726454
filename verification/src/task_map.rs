//! The task mapping of a graph: tasks keyed by their names.

use crate::tasks::{NamedTask, NamedTaskView, Task, TaskView};
use crate::text::views;
use vstd::prelude::*;

verus! {

/// Whether every name that a task lists as a dependency is itself the name of
/// a task of the mapping.
pub open spec fn dependencies_resolved(tasks: Map<Seq<char>, TaskView>) -> bool {
    forall|name: Seq<char>, i: int|
        #![trigger tasks[name].dependency_names()[i]]
        tasks.dom().contains(name) && 0 <= i < tasks[name].dependency_names().len()
            ==> tasks.dom().contains(tasks[name].dependency_names()[i])
}

/// The contents of a list of named tasks.
pub open spec fn named_views(entries: Seq<NamedTask>) -> Seq<NamedTaskView> {
    entries.map_values(|e: NamedTask| e@)
}

/// The mapping that holds each entry's task under the entry's name; where
/// entries share a name, the last of them counts.
pub open spec fn tasks_of(entries: Seq<NamedTaskView>) -> Map<Seq<char>, TaskView>
    decreases entries.len(),
{
    if entries.len() == 0 {
        Map::empty()
    } else {
        tasks_of(entries.drop_last()).insert(entries.last().name, entries.last().task)
    }
}

/// The mapping of a list of entries holds exactly the names of the entries,
/// and under each name the task of the last entry of that name.
pub proof fn lemma_tasks_of(entries: Seq<NamedTaskView>)
    ensures
        forall|name: Seq<char>|
            tasks_of(entries).dom().contains(name) <==> exists|i: int|
                0 <= i < entries.len() && (#[trigger] entries[i]).name == name,
        forall|i: int|
            0 <= i < entries.len() && (forall|j: int|
                i < j < entries.len() ==> (#[trigger] entries[j]).name != entries[i].name)
                ==> tasks_of(entries)[(#[trigger] entries[i]).name] == entries[i].task,
    decreases entries.len(),
{
    if entries.len() > 0 {
        let before = entries.drop_last();
        let last = entries.last();
        lemma_tasks_of(before);
        assert forall|name: Seq<char>|
            tasks_of(entries).dom().contains(name) <==> exists|i: int|
                0 <= i < entries.len() && (#[trigger] entries[i]).name == name by {
            if tasks_of(entries).dom().contains(name) && name != last.name {
                let i = choose|i: int| 0 <= i < before.len() && (#[trigger] before[i]).name == name;
                assert(entries[i].name == name);
            }
            if exists|i: int| 0 <= i < entries.len() && (#[trigger] entries[i]).name == name {
                let i = choose|i: int|
                    0 <= i < entries.len() && (#[trigger] entries[i]).name == name;
                if i < before.len() {
                    assert(before[i].name == name);
                }
            }
        }
        assert forall|i: int|
            0 <= i < entries.len() && (forall|j: int|
                i < j < entries.len() ==> (#[trigger] entries[j]).name
                    != entries[i].name) implies tasks_of(entries)[(#[trigger] entries[i]).name]
            == entries[i].task by {
            if i < before.len() {
                assert(entries[before.len() as int].name != entries[i].name);
                assert(before[i] == entries[i]);
                assert forall|j: int| i < j < before.len() implies (#[trigger] before[j]).name
                    != before[i].name by {
                    assert(entries[j].name != entries[i].name);
                }
            }
        }
    }
}

/// Tasks by name. A name occurs at most once: inserting under a name that is
/// taken replaces the task held so far. The order of insertion carries no
/// meaning, the task runner orders tasks by their dependencies.
#[derive(Debug)]
pub struct TaskMap {
    entries: Vec<NamedTask>,
}

impl TaskMap {
    /// No two entries share a name.
    #[verifier::type_invariant]
    spec fn distinct_names(&self) -> bool {
        forall|i: int, j: int|
            0 <= i < j < self.entries@.len() ==> (#[trigger] self.entries@[i]).name@ != (
            #[trigger] self.entries@[j]).name@
    }

    /// Whether the entry at `i` has the name `key`.
    spec fn holds_at(&self, key: Seq<char>, i: int) -> bool {
        0 <= i < self.entries@.len() && self.entries@[i].name@ == key
    }

    /// The mapping from names to tasks.
    pub closed spec fn view(&self) -> Map<Seq<char>, TaskView> {
        Map::new(
            |key: Seq<char>| exists|i: int| self.holds_at(key, i),
            |key: Seq<char>| self.entries@[choose|i: int| self.holds_at(key, i)].task@,
        )
    }

    /// The names in the order in which the entries are held.
    spec fn names(&self) -> Seq<Seq<char>> {
        self.entries@.map_values(|e: NamedTask| e.name@)
    }

    /// The entry at `i` is what the mapping holds under its name.
    proof fn lemma_entry(&self, i: int)
        requires
            self.distinct_names(),
            0 <= i < self.entries@.len(),
        ensures
            self@.dom().contains(self.entries@[i].name@),
            self@[self.entries@[i].name@] == self.entries@[i].task@,
    {
        let key = self.entries@[i].name@;
        assert(self.holds_at(key, i));
        let c = choose|c: int| self.holds_at(key, c);
        assert(c == i);
    }

    /// The domain is finite and has one name per entry.
    proof fn lemma_len(&self)
        requires
            self.distinct_names(),
        ensures
            self@.dom().finite(),
            self@.dom().len() == self.entries@.len(),
    {
        let names = self.names();
        assert(names.no_duplicates());
        assert forall|key: Seq<char>| names.to_set().contains(key) <==> self@.dom().contains(
            key,
        ) by {
            if names.to_set().contains(key) {
                let i = choose|i: int| 0 <= i < names.len() && names[i] == key;
                assert(self.holds_at(key, i));
            }
            if self@.dom().contains(key) {
                let i = choose|i: int| self.holds_at(key, i);
                assert(names[i] == key);
            }
        }
        assert(names.to_set() =~= self@.dom());
        names.unique_seq_to_set();
    }

    /// The mapping without tasks.
    pub fn new() -> (map: TaskMap)
        ensures
            map@ == Map::<Seq<char>, TaskView>::empty(),
    {
        let map = TaskMap { entries: Vec::new() };
        assert(map@ =~= Map::<Seq<char>, TaskView>::empty());
        map
    }

    /// The number of tasks.
    pub fn len(&self) -> (n: usize)
        ensures
            self@.dom().finite(),
            n == self@.dom().len(),
    {
        proof {
            use_type_invariant(self);
            self.lemma_len();
        }
        self.entries.len()
    }

    /// The place of the entry named `name`, if there is one.
    fn position(&self, name: &str) -> (r: Option<usize>)
        ensures
            match r {
                Some(i) => self.holds_at(name@, i as int),
                None => forall|i: int| !self.holds_at(name@, i),
            },
    {
        let wanted: String = name.to_owned();
        let mut i: usize = 0;
        while i < self.entries.len()
            invariant
                i <= self.entries.len(),
                wanted@ == name@,
                forall|j: int| 0 <= j < i ==> !self.holds_at(name@, j),
            decreases self.entries.len() - i,
        {
            if self.entries[i].name == wanted {
                return Some(i);
            }
            i += 1;
        }
        None
    }

    /// Whether a task is held under `name`.
    pub fn contains_key(&self, name: &str) -> (b: bool)
        ensures
            b == self@.dom().contains(name@),
    {
        self.position(name).is_some()
    }

    /// The task held under `name`.
    pub fn get(&self, name: &str) -> (r: Option<&Task>)
        ensures
            match r {
                Some(task) => self@.dom().contains(name@) && task@ == self@[name@],
                None => !self@.dom().contains(name@),
            },
    {
        match self.position(name) {
            Some(i) => {
                proof {
                    use_type_invariant(self);
                    self.lemma_entry(i as int);
                }
                Some(&self.entries[i].task)
            },
            None => None,
        }
    }

    /// Puts `named.task` under `named.name`, in place of any task held there.
    pub fn insert(&mut self, named: NamedTask)
        ensures
            final(self)@ == old(self)@.insert(named.name@, named.task@),
    {
        proof {
            use_type_invariant(&*self);
        }
        let ghost before = *self;
        let found = self.position(named.name.as_str());
        let mut held = TaskMap { entries: Vec::new() };
        core::mem::swap(self, &mut held);
        let mut entries = held.entries;
        match found {
            Some(i) => {
                entries.set(i, named);
            },
            None => {
                entries.push(named);
            },
        }
        proof {
            assert(held.entries@ == before.entries@);
            assert forall|a: int, b: int| 0 <= a < b < entries@.len() implies (
            #[trigger] entries@[a]).name@ != (#[trigger] entries@[b]).name@ by {
                match found {
                    Some(i) => {
                        assert(before.holds_at(named.name@, i as int));
                    },
                    None => {
                        assert(!before.holds_at(named.name@, a));
                    },
                }
            }
        }
        *self = TaskMap { entries };
        proof {
            let after = *self;
            let key = named.name@;
            assert forall|k: Seq<char>|
                after@.dom().contains(k) <==> before@.insert(key, named.task@).dom().contains(
                    k,
                ) by {
                if after@.dom().contains(k) {
                    let i = choose|i: int| after.holds_at(k, i);
                    if k != key {
                        assert(before.holds_at(k, i));
                    }
                }
                if before@.dom().contains(k) && k != key {
                    let i = choose|i: int| before.holds_at(k, i);
                    assert(after.holds_at(k, i));
                }
                if k == key {
                    match found {
                        Some(i) => {
                            assert(after.holds_at(k, i as int));
                        },
                        None => {
                            assert(after.holds_at(k, before.entries@.len() as int));
                        },
                    }
                }
            }
            assert forall|k: Seq<char>| after@.dom().contains(k) implies after@[k]
                == before@.insert(key, named.task@)[k] by {
                let i = choose|i: int| after.holds_at(k, i);
                after.lemma_entry(i);
                if k != key {
                    assert(before.holds_at(k, i));
                    before.lemma_entry(i);
                } else {
                    assert(after.entries@[i].task@ == named.task@);
                }
            }
            assert(after@ =~= before@.insert(key, named.task@));
        }
    }

    /// Whether every dependency of every task names a task of the mapping.
    pub fn dependencies_resolved(&self) -> (b: bool)
        ensures
            b == dependencies_resolved(self@),
    {
        proof {
            use_type_invariant(self);
        }
        let mut i: usize = 0;
        while i < self.entries.len()
            invariant
                i <= self.entries.len(),
                self.distinct_names(),
                forall|a: int, j: int|
                    #![trigger self.entries@[a].task@.dependency_names()[j]]
                    0 <= a < i && 0 <= j < self.entries@[a].task@.dependency_names().len()
                        ==> self@.dom().contains(self.entries@[a].task@.dependency_names()[j]),
            decreases self.entries.len() - i,
        {
            proof {
                self.lemma_entry(i as int);
            }
            if let Some(names) = &self.entries[i].task.dependencies {
                let mut j: usize = 0;
                while j < names.len()
                    invariant
                        j <= names.len(),
                        i < self.entries.len(),
                        self.entries@[i as int].task.dependencies == Some(*names),
                        self@.dom().contains(self.entries@[i as int].name@),
                        self@[self.entries@[i as int].name@] == self.entries@[i as int].task@,
                        forall|k: int|
                            0 <= k < j ==> self@.dom().contains(#[trigger] views(names@)[k]),
                    decreases names.len() - j,
                {
                    if !self.contains_key(names[j].as_str()) {
                        proof {
                            let name = self.entries@[i as int].name@;
                            assert(self@[name].dependency_names()[j as int] == names@[j as int]@);
                        }
                        return false;
                    }
                    j += 1;
                }
            }
            i += 1;
        }
        proof {
            assert forall|name: Seq<char>, j: int|
                #![trigger self@[name].dependency_names()[j]]
                self@.dom().contains(name) && 0 <= j < self@[name].dependency_names().len()
                    implies self@.dom().contains(self@[name].dependency_names()[j]) by {
                let a = choose|a: int| self.holds_at(name, a);
                self.lemma_entry(a);
                assert(self@.dom().contains(self.entries@[a].task@.dependency_names()[j]));
            }
        }
        true
    }

    /// The mapping of the entries, taken in order.
    pub fn from_entries(entries: Vec<NamedTask>) -> (map: TaskMap)
        ensures
            map@ == tasks_of(named_views(entries@)),
    {
        let ghost all = named_views(entries@);
        let mut rest = entries;
        let mut reversed: Vec<NamedTask> = Vec::new();
        while rest.len() > 0
            invariant
                rest@.len() + reversed@.len() == all.len(),
                forall|i: int| 0 <= i < rest@.len() ==> (#[trigger] rest@[i])@ == all[i],
                forall|i: int|
                    0 <= i < reversed@.len() ==> (#[trigger] reversed@[i])@ == all[all.len() - 1
                        - i],
            decreases rest.len(),
        {
            let named = rest.pop().unwrap();
            reversed.push(named);
        }
        let mut map = TaskMap::new();
        assert(all.take(0) =~= Seq::<NamedTaskView>::empty());
        while reversed.len() > 0
            invariant
                reversed@.len() <= all.len(),
                forall|i: int|
                    0 <= i < reversed@.len() ==> (#[trigger] reversed@[i])@ == all[all.len() - 1
                        - i],
                map@ == tasks_of(all.take(all.len() - reversed@.len())),
            decreases reversed.len(),
        {
            let ghost done = all.len() - reversed@.len();
            let named = reversed.pop().unwrap();
            proof {
                assert(named@ == all[done]);
                assert(all.take(done + 1).drop_last() =~= all.take(done));
                assert(all.take(done + 1).last() == all[done]);
            }
            map.insert(named);
        }
        assert(all.take(all.len() as int) =~= all);
        map
    }

    /// The tasks with their names, one entry per name.
    pub fn entries(&self) -> (entries: &Vec<NamedTask>)
        ensures
            tasks_of(named_views(entries@)) == self@,
            self@.dom().finite(),
            entries@.len() == self@.dom().len(),
            forall|i: int|
                0 <= i < entries@.len() ==> self@.dom().contains((#[trigger] entries@[i]).name@)
                    && self@[entries@[i].name@] == entries@[i].task@,
            forall|i: int, j: int|
                0 <= i < j < entries@.len() ==> (#[trigger] entries@[i]).name@ != (
                #[trigger] entries@[j]).name@,
    {
        proof {
            use_type_invariant(self);
            self.lemma_len();
            assert forall|i: int| 0 <= i < self.entries@.len() implies self@.dom().contains(
                (#[trigger] self.entries@[i]).name@,
            ) && self@[self.entries@[i].name@] == self.entries@[i].task@ by {
                self.lemma_entry(i);
            }
            let views = named_views(self.entries@);
            lemma_tasks_of(views);
            assert forall|name: Seq<char>| tasks_of(views).dom().contains(name)
                <==> self@.dom().contains(name) by {
                if tasks_of(views).dom().contains(name) {
                    let i = choose|i: int| 0 <= i < views.len() && (#[trigger] views[i]).name == name;
                    assert(self.holds_at(name, i));
                }
                if self@.dom().contains(name) {
                    let i = choose|i: int| self.holds_at(name, i);
                    assert(views[i].name == name);
                }
            }
            assert forall|name: Seq<char>| self@.dom().contains(name) implies tasks_of(views)[name]
                == self@[name] by {
                let i = choose|i: int| self.holds_at(name, i);
                self.lemma_entry(i);
                assert(views[i].name == name);
                assert forall|j: int| i < j < views.len() implies (#[trigger] views[j]).name
                    != views[i].name by {
                    assert(self.entries@[j].name@ != self.entries@[i].name@);
                }
            }
            assert(tasks_of(views) =~= self@);
        }
        &self.entries
    }
}

} // verus!

//! The task model: one named unit of work of the pipeline.

use crate::text::views;
use vstd::prelude::*;

verus! {

/// A unit of work as the task runner reads it.
///
/// A task either runs `command` with `args` or hands `script` to
/// `script_runner`. `condition_script` gates it: the runner executes the task
/// only when that script exits with status zero.
#[derive(Debug, Clone)]
pub struct Task {
    /// Text shown in task listings.
    pub description: Option<String>,
    /// The executable to run.
    pub command: Option<String>,
    /// Arguments of `command`, in order.
    pub args: Option<Vec<String>>,
    /// Names of the tasks that run before this one, in order.
    pub dependencies: Option<Vec<String>>,
    /// Lines of the script that gates the task.
    pub condition_script: Option<Vec<String>>,
    /// Interpreter that runs `script`.
    pub script_runner: Option<String>,
    /// Text of the inline script.
    pub script: Option<String>,
}

/// What a [`Task`] holds, as mathematical values.
pub struct TaskView {
    pub description: Option<Seq<char>>,
    pub command: Option<Seq<char>>,
    pub args: Option<Seq<Seq<char>>>,
    pub dependencies: Option<Seq<Seq<char>>>,
    pub condition_script: Option<Seq<Seq<char>>>,
    pub script_runner: Option<Seq<char>>,
    pub script: Option<Seq<char>>,
}

/// The contents of an optional string.
pub open spec fn opt_text(o: Option<String>) -> Option<Seq<char>> {
    match o {
        Some(s) => Some(s@),
        None => None,
    }
}

/// The contents of an optional list of strings.
pub open spec fn opt_texts(o: Option<Vec<String>>) -> Option<Seq<Seq<char>>> {
    match o {
        Some(v) => Some(views(v@)),
        None => None,
    }
}

impl TaskView {
    /// The task that says nothing.
    pub open spec fn empty() -> TaskView {
        TaskView {
            description: None,
            command: None,
            args: None,
            dependencies: None,
            condition_script: None,
            script_runner: None,
            script: None,
        }
    }

    /// The names of the tasks that run first; none where the list is absent.
    pub open spec fn dependency_names(self) -> Seq<Seq<char>> {
        match self.dependencies {
            Some(names) => names,
            None => Seq::empty(),
        }
    }
}

impl View for Task {
    type V = TaskView;

    open spec fn view(&self) -> TaskView {
        TaskView {
            description: opt_text(self.description),
            command: opt_text(self.command),
            args: opt_texts(self.args),
            dependencies: opt_texts(self.dependencies),
            condition_script: opt_texts(self.condition_script),
            script_runner: opt_text(self.script_runner),
            script: opt_text(self.script),
        }
    }
}

impl Default for Task {
    fn default() -> (task: Task)
        ensures
            task@ == TaskView::empty(),
    {
        Task {
            description: None,
            command: None,
            args: None,
            dependencies: None,
            condition_script: None,
            script_runner: None,
            script: None,
        }
    }
}

/// A task together with the name under which the graph holds it.
#[derive(Debug, Clone)]
pub struct NamedTask {
    /// Key of the task in the graph.
    pub name: String,
    /// The task itself.
    pub task: Task,
}

/// What a [`NamedTask`] holds, as mathematical values.
pub struct NamedTaskView {
    pub name: Seq<char>,
    pub task: TaskView,
}

impl View for NamedTask {
    type V = NamedTaskView;

    open spec fn view(&self) -> NamedTaskView {
        NamedTaskView { name: self.name@, task: self.task@ }
    }
}

/// Owned copies of the given texts, in order.
pub fn strings(items: &[&str]) -> (list: Vec<String>)
    ensures
        views(list@) == items@.map_values(|s: &str| s@),
{
    let mut list: Vec<String> = Vec::new();
    let mut i: usize = 0;
    while i < items.len()
        invariant
            i <= items.len(),
            views(list@) == items@.take(i as int).map_values(|s: &str| s@),
        decreases items.len() - i,
    {
        let item: String = items[i].to_owned();
        proof {
            list@.lemma_push_map_commute(|l: String| l@, item);
            items@.take(i as int).lemma_push_map_commute(|s: &str| s@, items@[i as int]);
            assert(items@.take(i + 1) =~= items@.take(i as int).push(items@[i as int]));
        }
        list.push(item);
        i += 1;
    }
    assert(items@.take(items.len() as int) =~= items@);
    list
}

} // verus!

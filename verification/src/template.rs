//! The description a template repository gives of itself: the questions to
//! ask and what each answer does to the generated project.

use vstd::prelude::*;

verus! {

/// A template's own configuration.
#[derive(Debug, Clone)]
pub struct Config {
    pub questions: Vec<String>,
    pub actions: Vec<QuestionAction>,
}

/// A part of the template that can be included or left out.
#[derive(Debug, Clone)]
pub struct Component {
    pub id: String,
    pub description: String,
    pub aliases: Vec<String>,
    pub target: ComponentTarget,
}

/// What a component consists of on disk.
#[derive(Debug, Clone)]
pub enum ComponentTarget {
    Folder { path: String },
    File { path: String },
}

/// A question put to the user, with the questions that follow from it.
#[derive(Debug)]
pub struct Question {
    pub prompt: String,
    pub kind: QuestionKind,
    pub subquestions: Vec<Question>,
}

/// Mathematical value of a [`QuestionKind`].
pub enum QuestionKindView {
    Bool { default: bool, component: Seq<char> },
    Input { default: Seq<char>, component: Seq<char> },
}

impl DeepView for QuestionKind {
    type V = QuestionKindView;

    open spec fn deep_view(&self) -> QuestionKindView {
        match self {
            QuestionKind::Bool { default, component } => QuestionKindView::Bool {
                default: *default,
                component: component@,
            },
            QuestionKind::Input { default, component } => QuestionKindView::Input {
                default: default@,
                component: component@,
            },
        }
    }
}

impl QuestionKind {
    /// A copy of the same form, default and component.
    pub fn duplicate(&self) -> (copy: QuestionKind)
        ensures
            copy.deep_view() == self.deep_view(),
    {
        match self {
            QuestionKind::Bool { default, component } => QuestionKind::Bool {
                default: *default,
                component: component.clone(),
            },
            QuestionKind::Input { default, component } => QuestionKind::Input {
                default: default.clone(),
                component: component.clone(),
            },
        }
    }
}

/// Whether two questions ask the same: the same prompt and kind, and the
/// same subquestions in the same order.
pub open spec fn same_question(a: Question, b: Question) -> bool
    decreases a,
{
    &&& a.prompt@ == b.prompt@
    &&& a.kind.deep_view() == b.kind.deep_view()
    &&& a.subquestions.len() == b.subquestions.len()
    &&& forall|i: int|
        0 <= i < a.subquestions.len() ==> same_question(
            #[trigger] a.subquestions[i],
            b.subquestions[i],
        )
}

impl Question {
    /// A deep copy: a question that asks the same.
    pub fn duplicate(&self) -> (copy: Question)
        ensures
            same_question(*self, copy),
        decreases self,
    {
        let mut subquestions: Vec<Question> = Vec::new();
        let mut i: usize = 0;
        while i < self.subquestions.len()
            invariant
                i <= self.subquestions.len(),
                subquestions.len() == i,
                forall|j: int|
                    0 <= j < i ==> same_question(#[trigger] self.subquestions[j], subquestions[j]),
            decreases self.subquestions.len() - i,
        {
            let sub = self.subquestions[i].duplicate();
            subquestions.push(sub);
            i += 1;
        }
        Question { prompt: self.prompt.clone(), kind: self.kind.duplicate(), subquestions }
    }
}

/// The form of an answer, its default, and the component it decides on.
#[derive(Debug, Clone)]
pub enum QuestionKind {
    Bool { default: bool, component: String },
    Input { default: String, component: String },
}

/// What an answer does to the files of the template.
#[derive(Debug, Clone)]
pub enum QuestionAction {
    /// Replace content from files within the given glob pattern.
    ReplaceContent { glob: String },
    /// Include the folder from the given path.
    IncludeFolder { glob: String },
    /// Rename a folder.
    RenameFolder { glob: String, name: String },
    /// Rename a file.
    RenameFile { glob: String, name: String },
}

} // verus!

use crate::environment::Environment;
use vstd::prelude::*;

verus! {

/// A named grouping of environments that run the same application.
///
/// The environments are held in insertion order in a sequence that is
/// always present; "no environment" is the empty sequence.
pub struct Project {
    name: String,
    envs: Vec<Environment>,
}

/// The abstract state of a project: its name and the names of its
/// environments, in the order they were added.
pub ghost struct ProjectView {
    pub name: Seq<char>,
    pub envs: Seq<Seq<char>>,
}

impl ProjectView {
    /// A project named `name` that holds no environment.
    pub open spec fn fresh(name: Seq<char>) -> ProjectView {
        ProjectView { name, envs: Seq::empty() }
    }

    /// The same project with an environment named `env` appended.
    pub open spec fn pushed(self, env: Seq<char>) -> ProjectView {
        ProjectView { name: self.name, envs: self.envs.push(env) }
    }

    /// Whether the project holds at least one environment.
    pub open spec fn has_env(self) -> bool {
        self.envs.len() > 0
    }

    /// How many environments the project holds.
    pub open spec fn count(self) -> nat {
        self.envs.len()
    }
}

/// The project reached from `v` by appending environments named `envs`, one
/// after the other, first to last.
pub open spec fn pushed_all(v: ProjectView, envs: Seq<Seq<char>>) -> ProjectView
    decreases envs.len(),
{
    if envs.len() == 0 {
        v
    } else {
        pushed_all(v, envs.drop_last()).pushed(envs.last())
    }
}

/// The names of a sequence of environments, in order.
pub open spec fn env_names(envs: Seq<Environment>) -> Seq<Seq<char>> {
    envs.map_values(|e: Environment| e@)
}

impl View for Project {
    type V = ProjectView;

    closed spec fn view(&self) -> ProjectView {
        ProjectView { name: self.name@, envs: env_names(self.envs@) }
    }
}

impl Project {
    /// Creates a project named `name` with no environments.
    pub fn new(name: &str) -> (r: Self)
        ensures
            r@ == ProjectView::fresh(name@),
    {
        let r = Project { name: name.to_owned(), envs: Vec::new() };
        assert(r@.envs =~= Seq::<Seq<char>>::empty());
        r
    }

    /// The project's name.
    pub fn name(&self) -> (r: &str)
        ensures
            r@ == self@.name,
    {
        self.name.as_str()
    }

    /// The project's environments in insertion order, or `None` when it has
    /// none.
    pub fn envs(&self) -> (r: Option<&Vec<Environment>>)
        ensures
            r is None <==> !self@.has_env(),
            r matches Some(v) ==> env_names(v@) == self@.envs,
    {
        if self.envs.len() == 0 {
            None
        } else {
            Some(&self.envs)
        }
    }

    /// Whether at least one environment has been added.
    pub fn has_env(&self) -> (r: bool)
        ensures
            r == self@.has_env(),
    {
        self.envs.len() > 0
    }

    /// Appends `e` after the environments already held.
    pub fn push_env(&mut self, e: Environment)
        ensures
            final(self)@ == old(self)@.pushed(e@),
    {
        self.envs.push(e);
        assert(self@.envs =~= old(self)@.envs.push(e@));
    }

    /// The number of environments held.
    pub fn count_envs(&self) -> (r: usize)
        ensures
            r == self@.count(),
    {
        if self.has_env() {
            self.envs.len()
        } else {
            0
        }
    }
}

/// A freshly created project holds no environment: it has none and counts
/// zero.
pub proof fn fresh_project_is_empty(name: Seq<char>)
    ensures
        !ProjectView::fresh(name).has_env(),
        ProjectView::fresh(name).count() == 0,
{
}

/// Adding one environment to a fresh project leaves it holding exactly that
/// environment: it has one, counts one, and keeps its name.
pub proof fn one_push_on_fresh_project(name: Seq<char>, env: Seq<char>)
    ensures
        ProjectView::fresh(name).pushed(env).has_env(),
        ProjectView::fresh(name).pushed(env).count() == 1,
        ProjectView::fresh(name).pushed(env).envs == seq![env],
        ProjectView::fresh(name).pushed(env).name == name,
{
    assert(ProjectView::fresh(name).pushed(env).envs =~= seq![env]);
}

/// Appending environments one after the other keeps every earlier one and
/// puts the new ones after them, in the order they were appended; the name
/// does not change.
pub proof fn push_all_appends_in_order(v: ProjectView, envs: Seq<Seq<char>>)
    ensures
        pushed_all(v, envs).envs == v.envs + envs,
        pushed_all(v, envs).name == v.name,
        pushed_all(v, envs).count() == v.count() + envs.len(),
    decreases envs.len(),
{
    if envs.len() == 0 {
        assert(v.envs + envs =~= v.envs);
    } else {
        push_all_appends_in_order(v, envs.drop_last());
        assert(v.envs + envs =~= (v.envs + envs.drop_last()).push(envs.last()));
    }
}

/// Appending `k` environments to a fresh project, one after the other,
/// leaves it counting `k` and holding them in the order they were appended.
pub proof fn fresh_project_after_pushes(name: Seq<char>, envs: Seq<Seq<char>>)
    ensures
        pushed_all(ProjectView::fresh(name), envs).count() == envs.len(),
        pushed_all(ProjectView::fresh(name), envs).envs == envs,
        pushed_all(ProjectView::fresh(name), envs).has_env() == (envs.len() > 0),
{
    push_all_appends_in_order(ProjectView::fresh(name), envs);
    assert(Seq::<Seq<char>>::empty() + envs =~= envs);
}

} // verus!

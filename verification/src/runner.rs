//! Putting a runner together.

use crate::config::RunnerConfig;
use crate::error::{RunnerError, RunnerErrorView};
use crate::names::{NameModel, NameTable};
use crate::state::{RunnerInner, RunnerModel};
use vstd::prelude::*;

verus! {

/// A runner and the application that it serves.
pub struct Runner<A> {
    pub inner: RunnerInner,
    pub app: A,
}

impl<A> Runner<A> {
    /// A builder for a runner with a configuration.
    pub fn builder(config: RunnerConfig) -> (builder: RunnerBuilder<A>)
        ensures
            builder.spec_config() == config,
            builder.spec_app() is None,
    {
        RunnerBuilder::new(config)
    }
}

/// Collects what a runner is made of.
pub struct RunnerBuilder<A> {
    config: RunnerConfig,
    app: Option<A>,
}

impl<A> RunnerBuilder<A> {
    /// The configuration.
    pub closed spec fn spec_config(self) -> RunnerConfig {
        self.config
    }

    /// The application, where one was given.
    pub closed spec fn spec_app(self) -> Option<A> {
        self.app
    }

    /// A builder with a configuration and no application.
    pub fn new(config: RunnerConfig) -> (builder: Self)
        ensures
            builder.spec_config() == config,
            builder.spec_app() is None,
    {
        RunnerBuilder { config, app: None }
    }

    /// Gives the application.
    pub fn app(self, app: A) -> (builder: Self)
        ensures
            builder.spec_config() == self.spec_config(),
            builder.spec_app() == Some(app),
    {
        RunnerBuilder { config: self.config, app: Some(app) }
    }

    /// Makes a runner that was never started; fails without an application.
    pub fn build(self) -> (runner: Result<Runner<A>, RunnerError>)
        requires
            self.spec_config().wf(),
        ensures
            runner is Ok == self.spec_app() is Some,
            runner is Ok ==> {
                &&& runner->Ok_0.inner.wf()
                &&& runner->Ok_0.inner@ == RunnerModel::fresh(self.spec_config().deep_view())
                &&& Some(runner->Ok_0.app) == self.spec_app()
            },
            runner is Err ==> runner->Err_0 == RunnerError::RunnerAppRequired,
    {
        match self.app {
            None => Err(RunnerError::RunnerAppRequired),
            Some(app) => Ok(Runner { inner: RunnerInner::new(self.config), app }),
        }
    }
}

/// A value that stands for itself in contracts.
#[derive(Clone, Debug)]
pub struct Plain<T> {
    pub value: T,
}

impl<T> DeepView for Plain<T> {
    type V = T;

    open spec fn deep_view(&self) -> T {
        self.value
    }
}

/// The actors that an application offers, by name.
#[derive(Clone)]
pub struct AxumRunnerApp<D> {
    actors: NameTable<Plain<D>>,
}

impl<D> AxumRunnerApp<D> {
    /// The actors by name.
    pub closed spec fn spec_actors(self) -> NameModel<D> {
        self.actors.deep_view()
    }

    /// Well-formed: no name occurs twice.
    pub closed spec fn wf(self) -> bool {
        self.actors.wf()
    }

    /// No actors.
    pub fn new() -> (app: Self)
        ensures
            app.wf(),
            app.spec_actors() == NameModel::<D>::empty(),
    {
        AxumRunnerApp { actors: NameTable::new() }
    }

    /// With one more actor, in place of one of the same name.
    pub fn with_actor(self, name: String, definition: D) -> (app: Self)
        requires
            self.wf(),
        ensures
            app.wf(),
            app.spec_actors() == self.spec_actors().insert(name@, definition),
    {
        let mut actors = self.actors;
        actors.insert(name, Plain { value: definition });
        AxumRunnerApp { actors }
    }

    /// The actor of a name.
    pub fn actor(&self, name: &str) -> (definition: Option<&D>)
        requires
            self.wf(),
        ensures
            definition is Some == self.spec_actors().has(name@),
            definition is Some ==> *definition->0 == self.spec_actors().at(name@),
    {
        match self.actors.get(name) {
            Some(plain) => Some(&plain.value),
            None => None,
        }
    }

    /// The actor of a name; an error where there is none.
    pub fn registered_actor(&self, actor_name: &str) -> (definition: Result<&D, RunnerError>)
        requires
            self.wf(),
        ensures
            definition is Ok == self.spec_actors().has(actor_name@),
            definition is Ok ==> *definition->Ok_0 == self.spec_actors().at(actor_name@),
            definition is Err ==> definition->Err_0.deep_view() == (RunnerErrorView::ActorNotRegistered {
                actor_name: actor_name@,
            }),
    {
        match self.actor(actor_name) {
            Some(definition) => Ok(definition),
            None => Err(RunnerError::ActorNotRegistered { actor_name: actor_name.to_owned() }),
        }
    }
}

} // verus!

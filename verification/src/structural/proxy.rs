//! Proxy: a stand-in that does its own work before and after it hands the
//! request to the real subject.

use vstd::prelude::*;

verus! {

/// A stage of serving a request.
#[derive(Clone, Copy, Debug, PartialEq, Eq, Structural)]
pub enum Stage {
    /// The proxy prepares the request.
    Preparing,
    /// The real subject handles the request.
    Handling,
    /// The proxy finishes the request.
    PostProcessing,
}

/// What the real subject and its proxy have in common.
pub trait Subject {
    /// The stages a request goes through, first to last.
    spec fn stages(&self) -> Seq<Stage>;

    /// Serves a request and reports the stages it went through.
    fn request(&self) -> (served: Vec<Stage>)
        ensures
            served@ == self.stages(),
    ;
}

/// The real subject.
pub struct RealSubject;

impl Subject for RealSubject {
    open spec fn stages(&self) -> Seq<Stage> {
        seq![Stage::Handling]
    }

    fn request(&self) -> (served: Vec<Stage>) {
        let mut served: Vec<Stage> = Vec::new();
        served.push(Stage::Handling);
        proof {
            assert(served@ =~= self.stages());
        }
        served
    }
}

/// The stand-in.
pub struct Proxy {
    pub real_subject: RealSubject,
}

impl Proxy {
    /// What the proxy does before the real subject is asked.
    pub fn pre_request(&self) -> (stage: Stage)
        ensures
            stage == Stage::Preparing,
    {
        Stage::Preparing
    }

    /// What the proxy does after the real subject has answered.
    pub fn post_request(&self) -> (stage: Stage)
        ensures
            stage == Stage::PostProcessing,
    {
        Stage::PostProcessing
    }
}

impl Subject for Proxy {
    /// The proxy's preparation, whatever the real subject does, and the
    /// proxy's post-processing.
    open spec fn stages(&self) -> Seq<Stage> {
        seq![Stage::Preparing] + self.real_subject.stages() + seq![Stage::PostProcessing]
    }

    fn request(&self) -> (served: Vec<Stage>) {
        let mut served: Vec<Stage> = Vec::new();
        served.push(self.pre_request());
        let mut inner = self.real_subject.request();
        served.append(&mut inner);
        served.push(self.post_request());
        proof {
            assert(served@ =~= self.stages());
        }
        served
    }
}

} // verus!

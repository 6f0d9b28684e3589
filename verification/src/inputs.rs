//! The interactive input abstraction: a free-text prompt and a
//! single-choice menu. The workflow is written against this trait so it
//! can be driven by a console adapter in the binary and by a scripted
//! provider in tests.

use vstd::prelude::*;

use crate::errors::Error;

verus! {

/// A source of interactive answers. An implementation either supplies the
/// requested value or fails with `PromptFailed`; it promises nothing about
/// which value the user chose.
pub trait InputProvider {
    /// Gets a text input from the user with an optional default value.
    fn get_input(&mut self, prompt: &str, default: Option<&str>) -> (r: Result<String, Error>)
        ensures
            r matches Err(e) ==> e == Error::PromptFailed,
    ;

    /// Gets a selection from the user from a list of options.
    fn get_by_select(&mut self, prompt: &str, items: &Vec<String>) -> (r: Result<usize, Error>)
        ensures
            r matches Err(e) ==> e == Error::PromptFailed,
    ;
}

/// A scripted provider: hands out pre-recorded responses and selection
/// indices in order, and fails once a list is exhausted.
pub struct MockInput {
    responses: Vec<String>,
    selections: Vec<usize>,
    resp_index: usize,
    sel_index: usize,
}

impl MockInput {
    /// The responses not yet handed out.
    pub closed spec fn remaining_responses(&self) -> Seq<String> {
        if self.resp_index <= self.responses@.len() {
            self.responses@.skip(self.resp_index as int)
        } else {
            Seq::empty()
        }
    }

    /// The selection indices not yet handed out.
    pub closed spec fn remaining_selections(&self) -> Seq<usize> {
        if self.sel_index <= self.selections@.len() {
            self.selections@.skip(self.sel_index as int)
        } else {
            Seq::empty()
        }
    }

    /// Builds a provider that will answer with the given responses and
    /// selections, in order.
    pub fn new(responses: Vec<String>, selections: Vec<usize>) -> (r: MockInput)
        ensures
            r.remaining_responses() == responses@,
            r.remaining_selections() == selections@,
    {
        let r = MockInput { responses, selections, resp_index: 0, sel_index: 0 };
        proof {
            assert(r.remaining_responses() =~= r.responses@);
            assert(r.remaining_selections() =~= r.selections@);
        }
        r
    }
}

impl InputProvider for MockInput {
    fn get_input(&mut self, prompt: &str, default: Option<&str>) -> (r: Result<String, Error>)
        ensures
            old(self).remaining_responses().len() > 0 ==> (r matches Ok(t) && t == old(
                self,
            ).remaining_responses()[0] && final(self).remaining_responses() == old(
                self,
            ).remaining_responses().skip(1)),
            old(self).remaining_responses().len() == 0 ==> (r == Err::<String, Error>(
                Error::PromptFailed,
            ) && final(self).remaining_responses() == old(self).remaining_responses()),
            final(self).remaining_selections() == old(self).remaining_selections(),
    {
        if self.resp_index < self.responses.len() {
            let t = self.responses[self.resp_index].clone();
            proof {
                assert(old(self).remaining_responses()[0] == self.responses@[
                    self.resp_index as int
                ]);
            }
            self.resp_index = self.resp_index + 1;
            proof {
                assert(self.remaining_responses() =~= old(self).remaining_responses().skip(1));
            }
            Ok(t)
        } else {
            Err(Error::PromptFailed)
        }
    }

    fn get_by_select(&mut self, prompt: &str, items: &Vec<String>) -> (r: Result<usize, Error>)
        ensures
            old(self).remaining_selections().len() > 0 ==> (r matches Ok(i) && i == old(
                self,
            ).remaining_selections()[0] && final(self).remaining_selections() == old(
                self,
            ).remaining_selections().skip(1)),
            old(self).remaining_selections().len() == 0 ==> (r == Err::<usize, Error>(
                Error::PromptFailed,
            ) && final(self).remaining_selections() == old(self).remaining_selections()),
            final(self).remaining_responses() == old(self).remaining_responses(),
    {
        if self.sel_index < self.selections.len() {
            let i = self.selections[self.sel_index];
            proof {
                assert(old(self).remaining_selections()[0] == self.selections@[
                    self.sel_index as int
                ]);
            }
            self.sel_index = self.sel_index + 1;
            proof {
                assert(self.remaining_selections() =~= old(self).remaining_selections().skip(1));
            }
            Ok(i)
        } else {
            Err(Error::PromptFailed)
        }
    }
}

} // verus!

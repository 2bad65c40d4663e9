//! Providers: the services that a project is deployed to, and what is
//! common to them.

use std::rc::Rc;
use std::sync::Arc;
use vstd::prelude::*;
use vstd::string::StringExecFns;

pub mod gloo;
pub mod route53;

verus! {

/// The options of a provider: names with their values.
pub type Options = Vec<(String, String)>;

/// The name of the provider that deploys to a function service.
pub const AWS_LAMBDA_PROVIDER_NAME: &'static str = "aws-lambda";

/// The name of the provider that deploys to a container cluster.
pub const KUBERNETES_PROVIDER_NAME: &'static str = "k8s";

/// The name of the provider that serves domain names.
pub const ROUTE53_PROVIDER_NAME: &'static str = "route53";

/// Why a provider could not do what it was asked.
#[derive(Debug)]
pub enum ProviderError {
    /// The project could not be turned into what the provider deploys.
    TransformationError(String),
}

/// A service that a project is deployed to.
pub trait Provider {
    /// The name of the provider as text.
    spec fn name_text(&self) -> Seq<char>;

    /// The options that the provider has been given.
    spec fn options_view(&self) -> Seq<(String, String)>;

    /// The name of the provider.
    fn name(&self) -> (name: String)
        ensures
            name@ == self.name_text(),
    ;

    /// The options that the provider has been given.
    fn options(&self) -> (opts: Arc<Options>)
        ensures
            opts@ == self.options_view(),
    ;

    /// Gives the provider its options, in place of those it had.
    fn set_options(&mut self, opts: Arc<Options>) -> (r: Result<(), ProviderError>)
        ensures
            r is Ok,
            final(self).options_view() == opts@,
            final(self).name_text() == old(self).name_text(),
    ;
}

/// The first `count` items of a list as they are written in a rendered
/// list: each in double quotes, with a comma behind each but the last item
/// of the list.
pub open spec fn rendered_items(items: Seq<String>, count: nat) -> Seq<char>
    decreases count,
{
    if count == 0 {
        Seq::empty()
    } else {
        rendered_items(items, (count - 1) as nat) + "\""@ + items[count - 1]@ + "\""@ + if count
            < items.len() {
            ","@
        } else {
            Seq::empty()
        }
    }
}

/// A list of strings written as a list of quoted items in square brackets.
/// The items are written as they are: nothing in them is escaped.
pub fn render_string_list(list: Rc<Vec<String>>) -> (out: String)
    ensures
        out@ == "["@ + rendered_items(list@, list@.len()) + "]"@,
{
    let mut out = "[".to_owned();
    let mut i: usize = 0;
    while i < list.len()
        invariant
            i <= list@.len(),
            out@ == "["@ + rendered_items(list@, i as nat),
        decreases list@.len() - i,
    {
        out.append("\"");
        out.append(list[i].as_str());
        out.append("\"");
        if i < list.len() - 1 {
            out.append(",");
        }
        i += 1;
        assert(out@ =~= "["@ + rendered_items(list@, i as nat));
    }
    out.append("]");
    out
}

} // verus!

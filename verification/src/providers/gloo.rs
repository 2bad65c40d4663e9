//! The provider of HTTP routes in a container cluster: what it writes into
//! the description of a service's routes and certificates.

use crate::providers::{Options, Provider, ProviderError};
use crate::text::{contains, str_eq};
use std::sync::Arc;
use vstd::prelude::*;
use vstd::string::StringExecFns;
use vstd::string::StringSliceAdditionalSpecFns;
use vstd::utf8::encode_utf8;

verus! {

/// A function of a project, as far as its routes depend on it.
#[derive(Debug)]
pub struct Function {
    /// The name of the function.
    pub name: String,
    /// The name of the service that the function belongs to.
    pub service_name: String,
    /// The path under which the function is called over HTTP, if it is.
    pub http_path: Option<String>,
}

/// A service of a project, as far as its certificate depends on it.
#[derive(Debug)]
pub struct Service {
    /// The name of the service.
    pub name: String,
    /// The name of the provider that the service is deployed to.
    pub provider_name: String,
    /// The domain under which the service is reached, if it has one.
    pub domain_name: Option<String>,
}

/// One route: requests for `path` go to the function `to_function_name`.
#[derive(Debug, PartialEq, Eq)]
pub struct RouteData {
    pub path: String,
    pub to_function_name: String,
}

/// What is written into the description of a service's routes.
#[derive(Debug, PartialEq, Eq)]
pub struct VirtualServiceTemplate {
    pub project_name: String,
    pub service_name: String,
    pub domain_name: String,
    pub has_routes: bool,
    pub has_domain: bool,
    pub routes: Vec<RouteData>,
}

/// What is written into the description of a service's certificate.
#[derive(Debug, PartialEq, Eq)]
pub struct CertificateTemplate {
    pub project_name: String,
    pub service_name: String,
    pub domain_name: String,
}

/// The name of a service within its project and domain:
/// `service.project.domain`, with `local` for a service without a domain.
pub open spec fn service_domain(
    name: Seq<char>,
    project_name: Seq<char>,
    domain_name: Option<Seq<char>>,
) -> Seq<char> {
    name + "."@ + project_name + "."@ + match domain_name {
        Some(domain) => domain,
        None => "local"@,
    }
}

/// The routes of the service `service_name` among `functions`, as pairs of
/// path and function name: one for each function of the service that is
/// called over HTTP, in the order of the functions.
pub open spec fn routes_of(functions: Seq<Function>, service_name: Seq<char>) -> Seq<
    (Seq<char>, Seq<char>),
>
    decreases functions.len(),
{
    if functions.len() == 0 {
        Seq::empty()
    } else {
        let rest = routes_of(functions.drop_last(), service_name);
        let function = functions.last();
        if function.http_path is Some && function.service_name@ == service_name {
            rest.push((function.http_path->0@, function.name@))
        } else {
            rest
        }
    }
}

/// The views of a list of routes.
pub open spec fn route_views(routes: Seq<RouteData>) -> Seq<(Seq<char>, Seq<char>)> {
    routes.map_values(|route: RouteData| (route.path@, route.to_function_name@))
}

/// Whether one of `names` holds the text `gloo-system`.
pub open spec fn names_gloo(names: Seq<String>) -> bool {
    exists|i: int|
        0 <= i < names.len() && crate::text::occurs_in(
            encode_utf8(#[trigger] names[i]@),
            "gloo-system".spec_bytes(),
        )
}

/// The provider of HTTP routes in a container cluster.
pub struct ApiProvider {
    gloo_installed: bool,
    options: Arc<Options>,
}

impl ApiProvider {
    /// Whether the cluster was found to have the router installed.
    pub closed spec fn gloo_installed(&self) -> bool {
        self.gloo_installed
    }

    /// The provider for a cluster whose namespaces have the names
    /// `namespaces`; it has no options yet.
    pub fn new(namespaces: &Vec<String>) -> (provider: Self)
        ensures
            provider.gloo_installed() == names_gloo(namespaces@),
            provider.options_view() == Seq::<(String, String)>::empty(),
    {
        Self { gloo_installed: Self::is_installed(namespaces), options: Arc::new(Vec::new()) }
    }

    /// Whether the router is installed in a cluster whose namespaces have the
    /// names `namespaces`: it is where one of the names holds `gloo-system`.
    pub fn is_installed(namespaces: &Vec<String>) -> (installed: bool)
        ensures
            installed == names_gloo(namespaces@),
    {
        let mut i: usize = 0;
        while i < namespaces.len()
            invariant
                i <= namespaces@.len(),
                forall|k: int|
                    0 <= k < i ==> !crate::text::occurs_in(
                        encode_utf8(#[trigger] namespaces@[k]@),
                        "gloo-system".spec_bytes(),
                    ),
            decreases namespaces@.len() - i,
        {
            if contains(namespaces[i].as_str().as_bytes(), "gloo-system".as_bytes()) {
                return true;
            }
            i += 1;
        }
        false
    }

    /// The name of the service `name` within the project `project_name` and
    /// the domain `domain_name`.
    pub fn domain_for_service(&self, name: &str, project_name: &str, domain_name: Option<&str>) -> (out:
        String)
        ensures
            out@ == service_domain(
                name@,
                project_name@,
                match domain_name {
                    Some(domain) => Some(domain@),
                    None => None,
                },
            ),
    {
        let mut out = name.to_owned();
        out.append(".");
        out.append(project_name);
        out.append(".");
        match domain_name {
            Some(domain) => out.append(domain),
            None => out.append("local"),
        }
        assert(out@ =~= service_domain(
            name@,
            project_name@,
            match domain_name {
                Some(domain) => Some(domain@),
                None => None,
            },
        ));
        out
    }

    /// What is written into the description of the routes of the service
    /// `service_name` of the project `project_name`, whose domain is
    /// `domain_name` and whose functions are among `functions`.
    pub fn cast(
        &self,
        project_name: &str,
        service_name: &str,
        domain_name: Option<&str>,
        functions: &Vec<Function>,
    ) -> (template: VirtualServiceTemplate)
        ensures
            template.project_name@ == project_name@,
            template.service_name@ == service_name@,
            template.domain_name@ == service_domain(
                service_name@,
                project_name@,
                match domain_name {
                    Some(domain) => Some(domain@),
                    None => None,
                },
            ),
            template.has_domain == domain_name is Some,
            template.has_routes == (template.routes@.len() > 0),
            route_views(template.routes@) == routes_of(functions@, service_name@),
    {
        let mut routes: Vec<RouteData> = Vec::new();
        let mut i: usize = 0;
        assert(functions@.subrange(0, 0) =~= Seq::<Function>::empty());
        while i < functions.len()
            invariant
                i <= functions@.len(),
                route_views(routes@) == routes_of(functions@.subrange(0, i as int), service_name@),
            decreases functions@.len() - i,
        {
            let function = &functions[i];
            assert(functions@.subrange(0, i + 1).drop_last() =~= functions@.subrange(0, i as int));
            assert(functions@.subrange(0, i + 1).last() == functions@[i as int]);
            if let Some(path) = &function.http_path {
                if str_eq(function.service_name.as_str(), service_name) {
                    routes.push(
                        RouteData { path: path.clone(), to_function_name: function.name.clone() },
                    );
                    assert(route_views(routes@) =~= routes_of(
                        functions@.subrange(0, i as int),
                        service_name@,
                    ).push((path@, function.name@)));
                }
            }
            i += 1;
        }
        assert(functions@.subrange(0, i as int) =~= functions@);
        VirtualServiceTemplate {
            project_name: project_name.to_owned(),
            service_name: service_name.to_owned(),
            domain_name: self.domain_for_service(service_name, project_name, domain_name),
            has_routes: routes.len() > 0,
            has_domain: domain_name.is_some(),
            routes,
        }
    }

    /// Whether the cluster has the issuer of certificates that the provider
    /// installs: whether one of `issuers` is `asml-letsencrypt-staging-http01`.
    pub fn is_booted(&self, issuers: &Vec<String>) -> (booted: bool)
        ensures
            booted == exists|i: int|
                0 <= i < issuers@.len() && (#[trigger] issuers@[i])@
                    == "asml-letsencrypt-staging-http01"@,
    {
        let mut i: usize = 0;
        while i < issuers.len()
            invariant
                i <= issuers@.len(),
                forall|k: int|
                    0 <= k < i ==> (#[trigger] issuers@[k])@ != "asml-letsencrypt-staging-http01"@,
            decreases issuers@.len() - i,
        {
            if str_eq(issuers[i].as_str(), "asml-letsencrypt-staging-http01") {
                return true;
            }
            i += 1;
        }
        false
    }
}

impl Provider for ApiProvider {
    open spec fn name_text(&self) -> Seq<char> {
        "k8s-gloo"@
    }

    closed spec fn options_view(&self) -> Seq<(String, String)> {
        self.options@
    }

    fn name(&self) -> (name: String) {
        "k8s-gloo".to_owned()
    }

    fn options(&self) -> (opts: Arc<Options>) {
        self.options.clone()
    }

    fn set_options(&mut self, opts: Arc<Options>) -> (r: Result<(), ProviderError>) {
        self.options = opts;
        Ok(())
    }
}

} // verus!

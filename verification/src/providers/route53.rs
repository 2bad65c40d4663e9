//! The provider of domain names: what it writes into the description of the
//! zones and records of a project.

use crate::providers::gloo::Service;
use crate::providers::{
    Options, Provider, ProviderError, AWS_LAMBDA_PROVIDER_NAME, KUBERNETES_PROVIDER_NAME,
    ROUTE53_PROVIDER_NAME,
};
use crate::text::{eq_ignore_ascii_case, replace_char, same_ignoring_case, str_eq};
use std::sync::Arc;
use vstd::prelude::*;
use vstd::string::StringSliceAdditionalSpecFns;
use vstd::utf8::encode_utf8;

verus! {

/// A domain of a project.
#[derive(Debug)]
pub struct Domain {
    /// The name of the domain.
    pub dns_name: String,
    /// The name of the provider that serves the domain.
    pub provider_name: String,
    /// The options of that provider.
    pub options: Arc<Options>,
}

/// One record of a zone: the name of a service and where it points.
#[derive(Debug, PartialEq, Eq)]
pub struct Record {
    /// The name of the service.
    pub name: String,
    /// The address that the name points to; empty where the record is an
    /// alias.
    pub target: String,
    /// Whether the record is an alias for the gateway of a function service.
    pub is_apigw_target: bool,
}

/// One zone with its records.
#[derive(Debug, PartialEq, Eq)]
pub struct Zone {
    /// The name of the domain.
    pub name: String,
    /// The name of the domain with `_` in place of each `.`.
    pub name_snaked: String,
    /// The records of the zone.
    pub records: Vec<Record>,
    /// The options of the provider that serves the domain.
    pub options: Arc<Options>,
}

/// What is written into the description of a project's zones.
#[derive(Debug, PartialEq, Eq)]
pub struct Route53Template {
    pub project_name: String,
    pub zones: Vec<Zone>,
}

/// A record as mathematical values.
pub struct RecordView {
    pub name: Seq<char>,
    pub target: Seq<char>,
    pub is_apigw_target: bool,
}

/// A zone as mathematical values.
pub struct ZoneView {
    pub name: Seq<char>,
    pub name_snaked: Seq<char>,
    pub records: Seq<RecordView>,
    pub options: Seq<(String, String)>,
}

impl View for Record {
    type V = RecordView;

    open spec fn view(&self) -> RecordView {
        RecordView {
            name: self.name@,
            target: self.target@,
            is_apigw_target: self.is_apigw_target,
        }
    }
}

impl View for Zone {
    type V = ZoneView;

    open spec fn view(&self) -> ZoneView {
        ZoneView {
            name: self.name@,
            name_snaked: self.name_snaked@,
            records: self.records@.map_values(|record: Record| record@),
            options: self.options@,
        }
    }
}

/// The text `name` with `_` in place of each `.`.
pub open spec fn snaked(name: Seq<char>) -> Seq<char> {
    Seq::new(
        name.len(),
        |i: int|
            if name[i] == '.' {
                '_'
            } else {
                name[i]
            },
    )
}

/// The record of `service`: it points to `proxy_ip` where the service is
/// deployed to a container cluster, and is an alias where it is deployed to a
/// function service.
pub open spec fn record_of(service: Service, proxy_ip: Seq<char>) -> RecordView {
    RecordView {
        name: service.name@,
        target: if same_ignoring_case(
            encode_utf8(service.provider_name@),
            KUBERNETES_PROVIDER_NAME.spec_bytes(),
        ) {
            proxy_ip
        } else {
            Seq::empty()
        },
        is_apigw_target: same_ignoring_case(
            encode_utf8(service.provider_name@),
            AWS_LAMBDA_PROVIDER_NAME.spec_bytes(),
        ),
    }
}

/// The records of the zone `dns_name`: one for each of `services` that is
/// reached under that domain, in the order of the services.
pub open spec fn records_of(services: Seq<Service>, dns_name: Seq<char>, proxy_ip: Seq<char>) -> Seq<
    RecordView,
>
    decreases services.len(),
{
    if services.len() == 0 {
        Seq::empty()
    } else {
        let rest = records_of(services.drop_last(), dns_name, proxy_ip);
        let service = services.last();
        if service.domain_name is Some && service.domain_name->0@ == dns_name {
            rest.push(record_of(service, proxy_ip))
        } else {
            rest
        }
    }
}

/// The zones of a project: one for each of `domains` that is served by this
/// provider, in the order of the domains.
pub open spec fn zones_of(domains: Seq<Domain>, services: Seq<Service>, proxy_ip: Seq<char>) -> Seq<
    ZoneView,
>
    decreases domains.len(),
{
    if domains.len() == 0 {
        Seq::empty()
    } else {
        let rest = zones_of(domains.drop_last(), services, proxy_ip);
        let domain = domains.last();
        if domain.provider_name@ == ROUTE53_PROVIDER_NAME@ {
            rest.push(
                ZoneView {
                    name: domain.dns_name@,
                    name_snaked: snaked(domain.dns_name@),
                    records: records_of(services, domain.dns_name@, proxy_ip),
                    options: domain.options@,
                },
            )
        } else {
            rest
        }
    }
}

/// The views of a list of zones.
pub open spec fn zone_views(zones: Seq<Zone>) -> Seq<ZoneView> {
    zones.map_values(|zone: Zone| zone@)
}

/// The provider of domain names.
pub struct DnsProvider {
    options: Arc<Options>,
}

impl DnsProvider {
    /// The provider, with no options yet.
    pub fn new() -> (provider: Self)
        ensures
            provider.options_view() == Seq::<(String, String)>::empty(),
    {
        Self { options: Arc::new(Vec::new()) }
    }

    /// The records of the zone `dns_name` among `services`.
    fn records(services: &Vec<Service>, dns_name: &str, proxy_ip: &str) -> (records: Vec<Record>)
        ensures
            records@.map_values(|record: Record| record@) == records_of(
                services@,
                dns_name@,
                proxy_ip@,
            ),
    {
        let mut records: Vec<Record> = Vec::new();
        let mut i: usize = 0;
        assert(services@.subrange(0, 0) =~= Seq::<Service>::empty());
        while i < services.len()
            invariant
                i <= services@.len(),
                records@.map_values(|record: Record| record@) == records_of(
                    services@.subrange(0, i as int),
                    dns_name@,
                    proxy_ip@,
                ),
            decreases services@.len() - i,
        {
            let service = &services[i];
            assert(services@.subrange(0, i + 1).drop_last() =~= services@.subrange(0, i as int));
            assert(services@.subrange(0, i + 1).last() == services@[i as int]);
            if let Some(domain_name) = &service.domain_name {
                if str_eq(domain_name.as_str(), dns_name) {
                    let provider = service.provider_name.as_str().as_bytes();
                    let target = if eq_ignore_ascii_case(
                        provider,
                        KUBERNETES_PROVIDER_NAME.as_bytes(),
                    ) {
                        proxy_ip.to_owned()
                    } else {
                        String::new()
                    };
                    let record = Record {
                        name: service.name.clone(),
                        target,
                        is_apigw_target: eq_ignore_ascii_case(
                            provider,
                            AWS_LAMBDA_PROVIDER_NAME.as_bytes(),
                        ),
                    };
                    assert(record@ == record_of(*service, proxy_ip@));
                    records.push(record);
                    assert(records@.map_values(|record: Record| record@) =~= records_of(
                        services@.subrange(0, i as int),
                        dns_name@,
                        proxy_ip@,
                    ).push(record_of(*service, proxy_ip@)));
                }
            }
            i += 1;
        }
        assert(services@.subrange(0, i as int) =~= services@);
        records
    }

    /// What is written into the description of the zones of the project
    /// `project_name` with the domains `domains` and the services
    /// `services`, where `proxy_ip` is the address of the cluster's proxy.
    pub fn cast(
        &self,
        project_name: &str,
        domains: &Vec<Domain>,
        services: &Vec<Service>,
        proxy_ip: &str,
    ) -> (template: Route53Template)
        ensures
            template.project_name@ == project_name@,
            zone_views(template.zones@) == zones_of(domains@, services@, proxy_ip@),
    {
        let mut zones: Vec<Zone> = Vec::new();
        let mut i: usize = 0;
        assert(domains@.subrange(0, 0) =~= Seq::<Domain>::empty());
        while i < domains.len()
            invariant
                i <= domains@.len(),
                zone_views(zones@) == zones_of(
                    domains@.subrange(0, i as int),
                    services@,
                    proxy_ip@,
                ),
            decreases domains@.len() - i,
        {
            let domain = &domains[i];
            assert(domains@.subrange(0, i + 1).drop_last() =~= domains@.subrange(0, i as int));
            assert(domains@.subrange(0, i + 1).last() == domains@[i as int]);
            if str_eq(domain.provider_name.as_str(), ROUTE53_PROVIDER_NAME) {
                let zone = Zone {
                    name: domain.dns_name.clone(),
                    name_snaked: replace_char(domain.dns_name.as_str(), '.', '_'),
                    records: Self::records(services, domain.dns_name.as_str(), proxy_ip),
                    options: domain.options.clone(),
                };
                assert(zone@.name_snaked =~= snaked(domain.dns_name@));
                zones.push(zone);
                assert(zone_views(zones@) =~= zones_of(
                    domains@.subrange(0, i as int),
                    services@,
                    proxy_ip@,
                ).push(zone@));
            }
            i += 1;
        }
        assert(domains@.subrange(0, i as int) =~= domains@);
        Route53Template { project_name: project_name.to_owned(), zones }
    }
}

impl Provider for DnsProvider {
    open spec fn name_text(&self) -> Seq<char> {
        ROUTE53_PROVIDER_NAME@
    }

    closed spec fn options_view(&self) -> Seq<(String, String)> {
        self.options@
    }

    fn name(&self) -> (name: String) {
        ROUTE53_PROVIDER_NAME.to_owned()
    }

    fn options(&self) -> (opts: Arc<Options>) {
        self.options.clone()
    }

    fn set_options(&mut self, opts: Arc<Options>) -> (r: Result<(), ProviderError>) {
        self.options = opts;
        Ok(())
    }
}

} // verus!

//! What a device supports: for each service its APIs, and for each API the
//! versions at which it is offered.
//!
//! The cache is kept as lists of entries that are read from their end, so
//! that a later entry of a name counts, as a later insert into a map would.
//! A lookup walks the list: a device describes a dozen services with a few
//! dozen APIs each, and a list, unlike a hash map keyed by strings, is one
//! of which every lookup can be proved to find what the map holds.

use crate::error::Error;
use crate::error::ErrorView;
use crate::guide::Api;
use crate::guide::ApiView;
use crate::guide::ServiceData;
use crate::guide::ServiceDataView;
use crate::guide::Versions;
use crate::guide::VersionsView;
use vstd::prelude::*;

verus! {

/// The support of a device as a mathematical value: service name to API name
/// to the set of versions.
pub type Support = Map<Seq<char>, Map<Seq<char>, Set<Seq<char>>>>;

/// The support of a device that offers nothing.
pub open spec fn no_support() -> Support {
    Map::empty()
}

/// The verdict on one call: which of the three refusals applies, if any. The
/// service is looked up first, then the API, then the version.
pub open spec fn verdict(
    support: Support,
    service: Seq<char>,
    api: Seq<char>,
    version: Seq<char>,
) -> Result<(), ErrorView> {
    if !support.contains_key(service) {
        Err(ErrorView::BraviaApiServiceNotFound)
    } else if !support[service].contains_key(api) {
        Err(ErrorView::BraviaApiNotFound)
    } else if !support[service][api].contains(version) {
        Err(ErrorView::BraviaApiLevelError)
    } else {
        Ok(())
    }
}

/// Whether the device offers the API of that service at that version.
pub open spec fn offers(
    support: Support,
    service: Seq<char>,
    api: Seq<char>,
    version: Seq<char>,
) -> bool {
    support.contains_key(service) && support[service].contains_key(api)
        && support[service][api].contains(version)
}

/// The set of the texts in a list.
pub open spec fn text_set(texts: Seq<String>) -> Set<Seq<char>> {
    Set::new(|t: Seq<char>| exists|i: int| 0 <= i < texts.len() && #[trigger] texts[i]@ == t)
}

/// One API and the versions at which it is offered.
#[derive(Debug, Clone, PartialEq, Eq)]
pub struct ApiVersions {
    pub name: String,
    pub versions: Vec<String>,
}

/// The APIs of an entry list as a map; of two entries with one name the later
/// one counts.
pub open spec fn api_map(apis: Seq<ApiVersions>) -> Map<Seq<char>, Set<Seq<char>>>
    decreases apis.len(),
{
    if apis.len() == 0 {
        Map::empty()
    } else {
        api_map(apis.drop_last()).insert(apis.last().name@, text_set(apis.last().versions@))
    }
}

/// One service and its APIs.
#[derive(Debug, Clone, PartialEq, Eq)]
pub struct ServiceApis {
    pub name: String,
    pub apis: Vec<ApiVersions>,
}

/// The services of an entry list as a map; of two entries with one name the
/// later one counts.
pub open spec fn service_map(services: Seq<ServiceApis>) -> Support
    decreases services.len(),
{
    if services.len() == 0 {
        Map::empty()
    } else {
        service_map(services.drop_last()).insert(
            services.last().name@,
            api_map(services.last().apis@),
        )
    }
}

/// A name is absent from the map exactly when no entry carries it; where some
/// entry does, the map holds what the last such entry holds.
pub proof fn lemma_api_map_lookup(apis: Seq<ApiVersions>, name: Seq<char>)
    ensures
        api_map(apis).contains_key(name) <==> exists|i: int|
            0 <= i < apis.len() && (#[trigger] apis[i]).name@ == name,
        forall|i: int|
            0 <= i < apis.len() && (#[trigger] apis[i]).name@ == name && (forall|j: int|
                i < j < apis.len() ==> (#[trigger] apis[j]).name@ != name) ==> {
                &&& api_map(apis).contains_key(name)
                &&& api_map(apis)[name] == text_set(apis[i].versions@)
            },
    decreases apis.len(),
{
    if apis.len() > 0 {
        let front = apis.drop_last();
        let last = apis.len() - 1;
        lemma_api_map_lookup(front, name);
        if api_map(apis).contains_key(name) {
            if apis[last].name@ != name {
                assert(api_map(front).contains_key(name));
                let i = choose|i: int| 0 <= i < front.len() && (#[trigger] front[i]).name@ == name;
                assert(apis[i].name@ == name);
            }
        }
        if exists|i: int| 0 <= i < apis.len() && (#[trigger] apis[i]).name@ == name {
            let i = choose|i: int| 0 <= i < apis.len() && (#[trigger] apis[i]).name@ == name;
            if i != last {
                assert(front[i].name@ == name);
            }
        }
        assert forall|i: int|
            0 <= i < apis.len() && (#[trigger] apis[i]).name@ == name && (forall|j: int|
                i < j < apis.len() ==> (#[trigger] apis[j]).name@ != name) implies {
            &&& api_map(apis).contains_key(name)
            &&& api_map(apis)[name] == text_set(apis[i].versions@)
        } by {
            if i != last {
                assert(apis[last].name@ != name);
                assert(front[i].name@ == name);
                assert forall|j: int| i < j < front.len() implies (#[trigger] front[j]).name@
                    != name by {
                    assert(apis[j].name@ != name);
                }
            }
        }
    }
}

/// A name is absent from the map exactly when no entry carries it; where some
/// entry does, the map holds what the last such entry holds.
pub proof fn lemma_service_map_lookup(list: Seq<ServiceApis>, name: Seq<char>)
    ensures
        service_map(list).contains_key(name) <==> exists|i: int|
            0 <= i < list.len() && (#[trigger] list[i]).name@ == name,
        forall|i: int|
            0 <= i < list.len() && (#[trigger] list[i]).name@ == name && (forall|j: int|
                i < j < list.len() ==> (#[trigger] list[j]).name@ != name) ==> {
                &&& service_map(list).contains_key(name)
                &&& service_map(list)[name] == api_map(list[i].apis@)
            },
    decreases list.len(),
{
    if list.len() > 0 {
        let front = list.drop_last();
        let last = list.len() - 1;
        lemma_service_map_lookup(front, name);
        if service_map(list).contains_key(name) {
            if list[last].name@ != name {
                assert(service_map(front).contains_key(name));
                let i = choose|i: int| 0 <= i < front.len() && (#[trigger] front[i]).name@ == name;
                assert(list[i].name@ == name);
            }
        }
        if exists|i: int| 0 <= i < list.len() && (#[trigger] list[i]).name@ == name {
            let i = choose|i: int| 0 <= i < list.len() && (#[trigger] list[i]).name@ == name;
            if i != last {
                assert(front[i].name@ == name);
            }
        }
        assert forall|i: int|
            0 <= i < list.len() && (#[trigger] list[i]).name@ == name && (forall|j: int|
                i < j < list.len() ==> (#[trigger] list[j]).name@ != name) implies {
            &&& service_map(list).contains_key(name)
            &&& service_map(list)[name] == api_map(list[i].apis@)
        } by {
            if i != last {
                assert(list[last].name@ != name);
                assert(front[i].name@ == name);
                assert forall|j: int| i < j < front.len() implies (#[trigger] front[j]).name@
                    != name by {
                    assert(list[j].name@ != name);
                }
            }
        }
    }
}

/// Whether `version` is among `versions`.
pub fn has_version(versions: &Vec<String>, version: &String) -> (found: bool)
    ensures
        found == text_set(versions@).contains(version@),
{
    let mut i: usize = 0;
    while i < versions.len()
        invariant
            i <= versions.len(),
            forall|k: int| 0 <= k < i ==> versions[k]@ != version@,
        decreases versions.len() - i,
    {
        if versions[i] == *version {
            return true;
        }
        i += 1;
    }
    false
}

/// The position of the last entry named `name`, if there is one.
pub fn find_api(apis: &Vec<ApiVersions>, name: &String) -> (r: Option<usize>)
    ensures
        match r {
            Some(i) => {
                &&& i < apis.len()
                &&& apis[i as int].name@ == name@
                &&& forall|j: int| i < j < apis.len() ==> (#[trigger] apis[j]).name@ != name@
                &&& api_map(apis@)[name@] == text_set(apis[i as int].versions@)
            },
            None => forall|j: int| 0 <= j < apis.len() ==> (#[trigger] apis[j]).name@ != name@,
        },
        r is Some <==> api_map(apis@).contains_key(name@),
{
    let mut i: usize = apis.len();
    while i > 0
        invariant
            i <= apis.len(),
            forall|k: int| i <= k < apis.len() ==> (#[trigger] apis[k]).name@ != name@,
        decreases i,
    {
        i -= 1;
        if apis[i].name == *name {
            proof {
                lemma_api_map_lookup(apis@, name@);
            }
            return Some(i);
        }
    }
    proof {
        lemma_api_map_lookup(apis@, name@);
    }
    None
}

/// The position of the last entry named `name`, if there is one.
pub fn find_service(services: &Vec<ServiceApis>, name: &String) -> (r: Option<usize>)
    ensures
        match r {
            Some(i) => {
                &&& i < services.len()
                &&& services[i as int].name@ == name@
                &&& forall|j: int|
                    i < j < services.len() ==> (#[trigger] services[j]).name@ != name@
                &&& service_map(services@)[name@] == api_map(services[i as int].apis@)
            },
            None => forall|j: int|
                0 <= j < services.len() ==> (#[trigger] services[j]).name@ != name@,
        },
        r is Some <==> service_map(services@).contains_key(name@),
{
    let mut i: usize = services.len();
    while i > 0
        invariant
            i <= services.len(),
            forall|k: int| i <= k < services.len() ==> (#[trigger] services[k]).name@ != name@,
        decreases i,
    {
        i -= 1;
        if services[i].name == *name {
            proof {
                lemma_service_map_lookup(services@, name@);
            }
            return Some(i);
        }
    }
    proof {
        lemma_service_map_lookup(services@, name@);
    }
    None
}

/// The versions that a list of version details names.
pub open spec fn version_names(versions: Seq<VersionsView>) -> Set<Seq<char>> {
    Set::new(
        |t: Seq<char>|
            exists|i: int| 0 <= i < versions.len() && (#[trigger] versions[i]).version == t,
    )
}

/// The APIs that a device reports for one service, each with all the
/// versions it is reported at; of two reports of one API the later counts.
pub open spec fn apis_of(apis: Seq<ApiView>) -> Map<Seq<char>, Set<Seq<char>>>
    decreases apis.len(),
{
    if apis.len() == 0 {
        Map::empty()
    } else {
        apis_of(apis.drop_last()).insert(apis.last().name, version_names(apis.last().versions))
    }
}

/// The support that a discovery reply describes; of two descriptions of one
/// service the later counts.
pub open spec fn support_of(services: Seq<ServiceDataView>) -> Support
    decreases services.len(),
{
    if services.len() == 0 {
        Map::empty()
    } else {
        support_of(services.drop_last()).insert(
            services.last().service,
            apis_of(services.last().apis),
        )
    }
}

/// A discovery reply that describes a service yields support for it: the
/// cache of a client is never empty.
pub proof fn lemma_support_of_nonempty(services: Seq<ServiceDataView>)
    requires
        services.len() > 0,
    ensures
        support_of(services).contains_key(services.last().service),
{
}

/// The version strings of a list of version details, in its order.
pub fn collect_versions(versions: &Vec<Versions>) -> (r: Vec<String>)
    ensures
        r.len() == versions.len(),
        forall|k: int| 0 <= k < r.len() ==> (#[trigger] r[k])@ == versions[k].version@,
        text_set(r@) == version_names(versions.deep_view()),
{
    let mut out: Vec<String> = Vec::new();
    let mut i: usize = 0;
    while i < versions.len()
        invariant
            i <= versions.len(),
            out.len() == i,
            forall|k: int| 0 <= k < i ==> (#[trigger] out[k])@ == versions[k].version@,
        decreases versions.len() - i,
    {
        out.push(versions[i].version.clone());
        i += 1;
    }
    proof {
        let names = versions.deep_view();
        assert forall|t: Seq<char>| text_set(out@).contains(t) == version_names(names).contains(
            t,
        ) by {
            if text_set(out@).contains(t) {
                let k = choose|k: int| 0 <= k < out.len() && #[trigger] out@[k]@ == t;
                assert(names[k].version == t);
            }
            if version_names(names).contains(t) {
                let k = choose|k: int| 0 <= k < names.len() && (#[trigger] names[k]).version == t;
                assert(out@[k]@ == t);
            }
        }
        assert(text_set(out@) =~= version_names(names));
    }
    out
}

/// The cache entries for the APIs of one service: one for each API, in
/// their order.
pub fn collect_apis(apis: &Vec<Api>) -> (r: Vec<ApiVersions>)
    ensures
        r.len() == apis.len(),
        forall|k: int| 0 <= k < r.len() ==> (#[trigger] r[k]).name@ == apis[k].name@,
        api_map(r@) == apis_of(apis.deep_view()),
{
    let ghost all = apis.deep_view();
    let mut out: Vec<ApiVersions> = Vec::new();
    let mut i: usize = 0;
    while i < apis.len()
        invariant
            i <= apis.len(),
            out.len() == i,
            forall|k: int| 0 <= k < i ==> (#[trigger] out[k]).name@ == apis[k].name@,
            all == apis.deep_view(),
            api_map(out@) == apis_of(all.take(i as int)),
        decreases apis.len() - i,
    {
        let ghost before = out@;
        let entry = ApiVersions {
            name: apis[i].name.clone(),
            versions: collect_versions(&apis[i].versions),
        };
        out.push(entry);
        proof {
            assert(out@.drop_last() =~= before);
            assert(all.take(i + 1).drop_last() =~= all.take(i as int));
            assert(all.take(i + 1).last() == all[i as int]);
        }
        i += 1;
    }
    assert(all.take(i as int) =~= all);
    out
}

/// The capability cache of one client: filled once, when the client is made,
/// and only read afterwards.
#[derive(Debug, Clone, PartialEq, Eq)]
pub struct ApiSupport {
    pub services: Vec<ServiceApis>,
}

impl View for ApiSupport {
    type V = Support;

    open spec fn view(&self) -> Support {
        service_map(self.services@)
    }
}

impl ApiSupport {
    /// A cache that knows no service.
    pub fn new() -> (r: ApiSupport)
        ensures
            r@ == no_support(),
    {
        ApiSupport { services: Vec::new() }
    }

    /// The cache for what a discovery reply describes: for each service and
    /// each of its APIs, all the versions reported.
    pub fn from_services(services: &Vec<ServiceData>) -> (r: ApiSupport)
        ensures
            r@ == support_of(services.deep_view()),
    {
        let ghost all = services.deep_view();
        let mut cache = ApiSupport::new();
        let mut i: usize = 0;
        while i < services.len()
            invariant
                i <= services.len(),
                all == services.deep_view(),
                cache@ == support_of(all.take(i as int)),
            decreases services.len() - i,
        {
            let entry = ServiceApis {
                name: services[i].service.clone(),
                apis: collect_apis(&services[i].apis),
            };
            cache.insert(entry);
            proof {
                assert(all.take(i + 1).drop_last() =~= all.take(i as int));
                assert(all.take(i + 1).last() == all[i as int]);
            }
            i += 1;
        }
        assert(all.take(i as int) =~= all);
        cache
    }

    /// Whether the cache knows no service at all.
    pub fn is_empty(&self) -> (r: bool)
        ensures
            r == (self@.dom() == Set::<Seq<char>>::empty()),
    {
        proof {
            if self.services.len() > 0 {
                assert(self@.contains_key(self.services@.last().name@));
            }
        }
        self.services.len() == 0
    }

    /// Records a service with its APIs, in place of what was recorded under
    /// that name before.
    pub fn insert(&mut self, service: ServiceApis)
        ensures
            final(self)@ == old(self)@.insert(service.name@, api_map(service.apis@)),
    {
        let ghost before = self.services@;
        self.services.push(service);
        assert(self.services@.drop_last() =~= before);
    }

    /// Tests a call against the cache: the service must be known, then the
    /// API within it, then the version of that API.
    pub fn check(&self, service: &str, api: &str, version: &str) -> (r: Result<(), Error>)
        ensures
            crate::error::result_view(r) == verdict(self@, service@, api@, version@),
    {
        let service_name = service.to_owned();
        let api_name = api.to_owned();
        let version_name = version.to_owned();
        match find_service(&self.services, &service_name) {
            None => Err(Error::BraviaApiServiceNotFound),
            Some(s) => {
                let apis = &self.services[s].apis;
                match find_api(apis, &api_name) {
                    None => Err(Error::BraviaApiNotFound),
                    Some(a) => {
                        if has_version(&apis[a].versions, &version_name) {
                            Ok(())
                        } else {
                            Err(Error::BraviaApiLevelError)
                        }
                    },
                }
            },
        }
    }
}

} // verus!

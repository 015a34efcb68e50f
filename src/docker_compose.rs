use vstd::prelude::*;

verus! {

/// The compose file of a project.
#[derive(Debug, Clone)]
pub struct DockerCompose {
    file: String,
}

impl View for DockerCompose {
    type V = Seq<char>;

    closed spec fn view(&self) -> Seq<char> {
        self.file@
    }
}

impl DockerCompose {
    pub fn new(file: String) -> (r: Self)
        ensures
            r@ == file@,
    {
        DockerCompose { file }
    }

    /// The path of the compose file.
    pub fn file(&self) -> (r: &String)
        ensures
            r@ == self@,
    {
        &self.file
    }
}

/// A service that another one waits for.
#[derive(Debug, Clone)]
pub struct ServiceDependsOn {
    pub condition: String,
    pub required: bool,
}

/// A published port.
#[derive(Debug, Clone)]
pub struct ServicePorts {
    pub mode: String,
    pub target: u16,
    pub published: String,
    pub protocol: String,
}

/// A secret mounted into a service, by the name of a top-level secret.
#[derive(Debug, Clone)]
pub struct ServiceSecret {
    pub source: String,
}

/// Options of a bind mount.
#[derive(Debug, Clone)]
pub struct ServiceVolumeBind {
    pub create_host_path: bool,
}

/// A volume mounted into a service.
#[derive(Debug, Clone)]
pub struct ServiceVolume {
    /// `bind` or `volume`.
    pub volume_type: String,
    pub source: String,
    pub target: String,
    pub bind: Option<ServiceVolumeBind>,
    pub volume: Vec<(String, String)>,
}

/// One service of a project. Mappings keep the order in which they were
/// written.
#[derive(Debug, Clone)]
pub struct Service {
    pub container_name: Option<String>,
    pub depends_on: Vec<(String, ServiceDependsOn)>,
    pub environment: Vec<(String, String)>,
    pub image: Option<String>,
    pub init: Option<bool>,
    pub labels: Vec<(String, String)>,
    pub networks: Vec<(String, Option<String>)>,
    pub ports: Vec<ServicePorts>,
    pub secrets: Vec<ServiceSecret>,
    pub volumes: Vec<ServiceVolume>,
}

#[derive(Debug, Clone)]
pub struct Network {
    pub name: String,
    pub external: Option<bool>,
}

#[derive(Debug, Clone)]
pub struct Volume {
    pub name: String,
    pub driver: Option<String>,
    pub external: Option<bool>,
}

#[derive(Debug, Clone)]
pub struct Secret {
    pub name: String,
    pub file: String,
}

/// Why a project description was refused.
#[derive(Debug, Clone)]
pub enum TopologyError {
    /// Two services carry the same name.
    DuplicateService { service: String },
    /// `service` depends on `dependency`, which is not a service of the project.
    DanglingDependency { service: String, dependency: String },
    /// Two networks carry the same name.
    DuplicateNetwork { network: String },
    /// Two volumes carry the same name.
    DuplicateVolume { volume: String },
    /// Two secrets carry the same name.
    DuplicateSecret { secret: String },
}

/// The names of a list of named entries, in order.
pub open spec fn keys<T>(entries: Seq<(String, T)>) -> Seq<Seq<char>> {
    entries.map_values(|e: (String, T)| e.0@)
}

/// No name occurs twice.
pub open spec fn unique_keys(ks: Seq<Seq<char>>) -> bool {
    forall|i: int, j: int| 0 <= i < j < ks.len() ==> ks[i] != ks[j]
}

/// The entry at `j` repeats the name of an earlier entry.
pub open spec fn repeats_earlier(ks: Seq<Seq<char>>, j: int) -> bool {
    0 <= j < ks.len() && exists|i: int| 0 <= i < j && ks[i] == ks[j]
}

/// The entry at `j` is the first that repeats an earlier name.
pub open spec fn first_repeat(ks: Seq<Seq<char>>, j: int) -> bool {
    repeats_earlier(ks, j) && forall|m: int| 0 <= m < j ==> !repeats_earlier(ks, m)
}

/// The `j`-th dependency of the `i`-th service names no service.
pub open spec fn dangling(services: Seq<(String, Service)>, i: int, j: int) -> bool {
    &&& 0 <= i < services.len()
    &&& 0 <= j < services[i].1.depends_on@.len()
    &&& !keys(services).contains(services[i].1.depends_on@[j].0@)
}

/// Every dependency of every service names a service.
pub open spec fn dependencies_declared(services: Seq<(String, Service)>) -> bool {
    forall|i: int, j: int| !dangling(services, i, j)
}

/// The `j`-th dependency of the `i`-th service is the first dangling one, in
/// order of services and then of their dependencies.
pub open spec fn first_dangling(services: Seq<(String, Service)>, i: int, j: int) -> bool {
    &&& dangling(services, i, j)
    &&& forall|a: int, b: int| 0 <= a < i ==> !dangling(services, a, b)
    &&& forall|b: int| 0 <= b < j ==> !dangling(services, i, b)
}

/// A valid list of services: names unique, no dangling dependency.
pub open spec fn valid_services(services: Seq<(String, Service)>) -> bool {
    unique_keys(keys(services)) && dependencies_declared(services)
}

/// A valid project description: valid services, and unique names of
/// networks, volumes and secrets.
pub open spec fn valid_topology(
    services: Seq<(String, Service)>,
    networks: Seq<(String, Network)>,
    volumes: Seq<(String, Volume)>,
    secrets: Seq<(String, Secret)>,
) -> bool {
    &&& valid_services(services)
    &&& unique_keys(keys(networks))
    &&& unique_keys(keys(volumes))
    &&& unique_keys(keys(secrets))
}

/// A project description that was checked: its services have unique names,
/// every dependency names one of them, and all mappings keep the order in which
/// the description listed them.
#[derive(Debug)]
pub struct Config {
    name: String,
    services: Vec<(String, Service)>,
    networks: Vec<(String, Network)>,
    volumes: Vec<(String, Volume)>,
    secrets: Vec<(String, Secret)>,
}

/// The index of the first entry named `name`, if any.
pub fn position<T>(entries: &Vec<(String, T)>, name: &String) -> (r: Option<usize>)
    ensures
        match r {
            Some(i) => i < entries@.len() && keys(entries@)[i as int] == name@ && forall|j: int|
                0 <= j < i ==> keys(entries@)[j] != name@,
            None => !keys(entries@).contains(name@),
        },
{
    let mut k: usize = 0;
    while k < entries.len()
        invariant
            k <= entries@.len(),
            forall|j: int| 0 <= j < k ==> keys(entries@)[j] != name@,
        decreases entries@.len() - k,
    {
        if entries[k].0 == *name {
            return Some(k);
        }
        k = k + 1;
    }
    proof {
        if keys(entries@).contains(name@) {
            let j = choose|j: int| 0 <= j < keys(entries@).len() && keys(entries@)[j] == name@;
            assert(keys(entries@)[j] == name@);
        }
    }
    None
}

/// The index of the first entry whose name repeats an earlier one, if any.
pub fn first_duplicate<T>(entries: &Vec<(String, T)>) -> (r: Option<usize>)
    ensures
        match r {
            Some(j) => first_repeat(keys(entries@), j as int),
            None => unique_keys(keys(entries@)),
        },
{
    let ghost ks = keys(entries@);
    let mut i: usize = 0;
    while i < entries.len()
        invariant
            i <= entries@.len(),
            ks == keys(entries@),
            forall|a: int, b: int| 0 <= a < b < i ==> ks[a] != ks[b],
        decreases entries@.len() - i,
    {
        assert(ks[i as int] == entries@[i as int].0@);
        match position(entries, &entries[i].0) {
            Some(p) => {
                if p < i {
                    assert(ks[p as int] == ks[i as int]);
                    assert forall|m: int| 0 <= m < i implies !repeats_earlier(ks, m) by {
                        if repeats_earlier(ks, m) {
                            let a = choose|a: int| 0 <= a < m && ks[a] == ks[m];
                            assert(ks[a] != ks[m]);
                        }
                    }
                    return Some(i);
                }
            },
            None => {},
        }
        i = i + 1;
    }
    None
}

impl Config {
    #[verifier::type_invariant]
    spec fn wf(&self) -> bool {
        valid_topology(self.services@, self.networks@, self.volumes@, self.secrets@)
    }

    /// The project's name.
    pub closed spec fn name_spec(&self) -> Seq<char> {
        self.name@
    }

    /// The services, in the order of the description.
    pub closed spec fn services_spec(&self) -> Seq<(String, Service)> {
        self.services@
    }

    pub closed spec fn networks_spec(&self) -> Seq<(String, Network)> {
        self.networks@
    }

    pub closed spec fn volumes_spec(&self) -> Seq<(String, Volume)> {
        self.volumes@
    }

    pub closed spec fn secrets_spec(&self) -> Seq<(String, Secret)> {
        self.secrets@
    }

    /// Checks a project description and keeps it, in its order. Refused, in
    /// this order: a service name given twice (the first repeat); a dependency
    /// on a service that is not declared (the first in order of services and of
    /// their dependencies); a network, then a volume, then a secret name given
    /// twice (the first repeat).
    pub fn new(
        name: String,
        services: Vec<(String, Service)>,
        networks: Vec<(String, Network)>,
        volumes: Vec<(String, Volume)>,
        secrets: Vec<(String, Secret)>,
    ) -> (r: Result<Config, TopologyError>)
        ensures
            r is Ok <==> valid_topology(services@, networks@, volumes@, secrets@),
            r is Ok ==> ({
                let c = r->Ok_0;
                &&& c.name_spec() == name@
                &&& c.services_spec() == services@
                &&& c.networks_spec() == networks@
                &&& c.volumes_spec() == volumes@
                &&& c.secrets_spec() == secrets@
            }),
            !unique_keys(keys(services@)) ==> (r matches Err(TopologyError::DuplicateService { service })
                && exists|j: int| first_repeat(keys(services@), j) && service@ == keys(services@)[j]),
            unique_keys(keys(services@)) && !dependencies_declared(services@) ==> (r matches Err(
                TopologyError::DanglingDependency { service, dependency },
            ) && exists|i: int, j: int|
                first_dangling(services@, i, j) && service@ == keys(services@)[i]
                    && dependency@ == services@[i].1.depends_on@[j].0@),
            valid_services(services@) && !unique_keys(keys(networks@)) ==> (r matches Err(
                TopologyError::DuplicateNetwork { network },
            ) && exists|j: int| first_repeat(keys(networks@), j) && network@ == keys(networks@)[j]),
            valid_services(services@) && unique_keys(keys(networks@)) && !unique_keys(keys(volumes@))
                ==> (r matches Err(TopologyError::DuplicateVolume { volume }) && exists|j: int|
                first_repeat(keys(volumes@), j) && volume@ == keys(volumes@)[j]),
            valid_services(services@) && unique_keys(keys(networks@)) && unique_keys(keys(volumes@))
                && !unique_keys(keys(secrets@)) ==> (r matches Err(
                TopologyError::DuplicateSecret { secret },
            ) && exists|j: int| first_repeat(keys(secrets@), j) && secret@ == keys(secrets@)[j]),
    {
        if let Some(j) = first_duplicate(&services) {
            assert(keys(services@)[j as int] == services@[j as int].0@);
            return Err(TopologyError::DuplicateService { service: services[j].0.clone() });
        }
        let mut i: usize = 0;
        while i < services.len()
            invariant
                i <= services@.len(),
                unique_keys(keys(services@)),
                forall|a: int, b: int| 0 <= a < i ==> !dangling(services@, a, b),
            decreases services@.len() - i,
        {
            let deps = &services[i].1.depends_on;
            let mut j: usize = 0;
            while j < deps.len()
                invariant
                    i < services@.len(),
                    unique_keys(keys(services@)),
                    deps@ == services@[i as int].1.depends_on@,
                    forall|a: int, b: int| 0 <= a < i ==> !dangling(services@, a, b),
                    j <= deps@.len(),
                    forall|b: int| 0 <= b < j ==> !dangling(services@, i as int, b),
                decreases deps@.len() - j,
            {
                if position(&services, &deps[j].0).is_none() {
                    let service = services[i].0.clone();
                    let dependency = deps[j].0.clone();
                    assert(first_dangling(services@, i as int, j as int));
                    assert(keys(services@)[i as int] == services@[i as int].0@);
                    return Err(TopologyError::DanglingDependency { service, dependency });
                }
                j = j + 1;
            }
            i = i + 1;
        }
        if let Some(j) = first_duplicate(&networks) {
            assert(keys(networks@)[j as int] == networks@[j as int].0@);
            return Err(TopologyError::DuplicateNetwork { network: networks[j].0.clone() });
        }
        if let Some(j) = first_duplicate(&volumes) {
            assert(keys(volumes@)[j as int] == volumes@[j as int].0@);
            return Err(TopologyError::DuplicateVolume { volume: volumes[j].0.clone() });
        }
        if let Some(j) = first_duplicate(&secrets) {
            assert(keys(secrets@)[j as int] == secrets@[j as int].0@);
            return Err(TopologyError::DuplicateSecret { secret: secrets[j].0.clone() });
        }
        Ok(Config { name, services, networks, volumes, secrets })
    }

    /// The name of the first service in the order of the description, if any.
    pub fn first_service(&self) -> (r: Option<&String>)
        ensures
            self.services_spec().len() == 0 ==> r is None,
            self.services_spec().len() > 0 ==> (r is Some && r->0 == self.services_spec()[0].0),
    {
        if self.services.len() == 0 {
            None
        } else {
            Some(&self.services[0].0)
        }
    }

    /// The index of the service named `name`, if the project has one.
    pub fn service_index(&self, name: &String) -> (r: Option<usize>)
        ensures
            match r {
                Some(i) => i < self.services_spec().len() && keys(self.services_spec())[i as int]
                    == name@,
                None => !keys(self.services_spec()).contains(name@),
            },
    {
        position(&self.services, name)
    }

    pub fn name(&self) -> (r: &String)
        ensures
            r@ == self.name_spec(),
    {
        &self.name
    }

    pub fn services(&self) -> (r: &Vec<(String, Service)>)
        ensures
            r@ == self.services_spec(),
            valid_services(r@),
    {
        proof {
            use_type_invariant(self);
        }
        &self.services
    }

    pub fn networks(&self) -> (r: &Vec<(String, Network)>)
        ensures
            r@ == self.networks_spec(),
    {
        &self.networks
    }

    pub fn volumes(&self) -> (r: &Vec<(String, Volume)>)
        ensures
            r@ == self.volumes_spec(),
    {
        &self.volumes
    }

    pub fn secrets(&self) -> (r: &Vec<(String, Secret)>)
        ensures
            r@ == self.secrets_spec(),
    {
        &self.secrets
    }
}

} // verus!

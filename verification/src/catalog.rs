//! The resource catalog: the fixed set of resource kinds the broker's
//! management surface offers, the wire format each one answers in, and the
//! URL at which it is fetched.

use vstd::prelude::*;
use vstd::string::*;

verus! {

/// One resource of the broker's management API.
#[derive(Clone, Copy, PartialEq, Eq, Structural, Debug)]
pub enum ResourceKind {
    Version,
    Broker,
    HeapMemoryUsage,
    Queues,
    Topics,
    Subscribers,
    QueueBrowse,
    QueueFeedAtom,
    QueueFeedRss,
}

/// The wire format a resource kind answers in. The mapping from kind to
/// format is fixed by the catalog and never inferred from response content.
#[derive(Clone, Copy, PartialEq, Eq, Structural, Debug)]
pub enum WireFormat {
    Json,
    Xml,
}

/// Connection parameters for the broker under observation. Queue-scoped
/// resource kinds additionally need a queue name.
pub struct ConnectionParams {
    pub hostname: String,
    pub port: String,
    pub broker_name: String,
    pub queue_name: Option<String>,
}

/// The mathematical value of a `ConnectionParams`.
pub struct ConnectionParamsView {
    pub hostname: Seq<char>,
    pub port: Seq<char>,
    pub broker_name: Seq<char>,
    pub queue_name: Option<Seq<char>>,
}

impl View for ConnectionParams {
    type V = ConnectionParamsView;

    open spec fn view(&self) -> ConnectionParamsView {
        ConnectionParamsView {
            hostname: self.hostname@,
            port: self.port@,
            broker_name: self.broker_name@,
            queue_name: match self.queue_name {
                Some(q) => Some(q@),
                None => None,
            },
        }
    }
}

/// A resolved request: the kind, the URL to fetch, and the wire format the
/// response must be decoded as.
#[derive(Debug, Clone, PartialEq)]
pub struct RequestSpec {
    pub kind: ResourceKind,
    pub url: String,
    pub format: WireFormat,
}

/// Failure to resolve a request from the connection parameters.
#[derive(Clone, Copy, PartialEq, Eq, Structural, Debug)]
pub enum ConfigError {
    /// A parameter the resource kind requires (the queue name) is absent.
    MissingParameter,
}

/// The wire format the catalog declares for each resource kind.
pub open spec fn spec_wire_format(kind: ResourceKind) -> WireFormat {
    match kind {
        ResourceKind::Version => WireFormat::Json,
        ResourceKind::Broker => WireFormat::Json,
        ResourceKind::HeapMemoryUsage => WireFormat::Json,
        ResourceKind::Queues => WireFormat::Xml,
        ResourceKind::Topics => WireFormat::Xml,
        ResourceKind::Subscribers => WireFormat::Xml,
        ResourceKind::QueueBrowse => WireFormat::Xml,
        ResourceKind::QueueFeedAtom => WireFormat::Xml,
        ResourceKind::QueueFeedRss => WireFormat::Xml,
    }
}

/// Whether a resource kind is queue-scoped, so that resolving it requires a
/// queue name among the connection parameters.
pub open spec fn spec_requires_queue(kind: ResourceKind) -> bool {
    match kind {
        ResourceKind::QueueBrowse => true,
        ResourceKind::QueueFeedAtom => true,
        ResourceKind::QueueFeedRss => true,
        _ => false,
    }
}

/// The URL prefix `http://H:P` shared by every resource kind.
pub open spec fn spec_url_base(p: ConnectionParamsView) -> Seq<char> {
    "http://"@ + p.hostname + ":"@ + p.port
}

/// The exact URL of a resource kind, given the connection parameters.
/// Queue-scoped kinds read the queue name, the broker kind the broker name.
pub open spec fn spec_url(kind: ResourceKind, p: ConnectionParamsView) -> Seq<char>
    recommends
        spec_requires_queue(kind) ==> p.queue_name is Some,
{
    match kind {
        ResourceKind::Version => spec_url_base(p) + "/api/jolokia"@,
        ResourceKind::Broker => spec_url_base(p)
            + "/api/jolokia/read/org.apache.activemq:type=Broker,brokerName="@ + p.broker_name,
        ResourceKind::HeapMemoryUsage => spec_url_base(p)
            + "/api/jolokia/read/java.lang:type=Memory/HeapMemoryUsage"@,
        ResourceKind::Queues => spec_url_base(p) + "/admin/xml/queues.jsp"@,
        ResourceKind::Topics => spec_url_base(p) + "/admin/xml/topics.jsp"@,
        ResourceKind::Subscribers => spec_url_base(p) + "/admin/xml/subscribers.jsp"@,
        ResourceKind::QueueBrowse => spec_url_base(p) + "/admin/queueBrowse/"@
            + p.queue_name->Some_0,
        ResourceKind::QueueFeedAtom => spec_url_base(p) + "/admin/queueBrowse/"@
            + p.queue_name->Some_0 + "?view=rss&feedType=atom_1.0"@,
        ResourceKind::QueueFeedRss => spec_url_base(p) + "/admin/queueBrowse/"@
            + p.queue_name->Some_0 + "?view=rss&feedType=rss_2.0"@,
    }
}

impl ResourceKind {
    /// The wire format the catalog declares for this kind.
    pub fn wire_format(&self) -> (f: WireFormat)
        ensures
            f == spec_wire_format(*self),
    {
        match self {
            ResourceKind::Version => WireFormat::Json,
            ResourceKind::Broker => WireFormat::Json,
            ResourceKind::HeapMemoryUsage => WireFormat::Json,
            ResourceKind::Queues => WireFormat::Xml,
            ResourceKind::Topics => WireFormat::Xml,
            ResourceKind::Subscribers => WireFormat::Xml,
            ResourceKind::QueueBrowse => WireFormat::Xml,
            ResourceKind::QueueFeedAtom => WireFormat::Xml,
            ResourceKind::QueueFeedRss => WireFormat::Xml,
        }
    }

    /// Whether this kind is queue-scoped.
    pub fn requires_queue(&self) -> (b: bool)
        ensures
            b == spec_requires_queue(*self),
    {
        match self {
            ResourceKind::QueueBrowse => true,
            ResourceKind::QueueFeedAtom => true,
            ResourceKind::QueueFeedRss => true,
            _ => false,
        }
    }
}

/// Resolve a resource kind against connection parameters: the exact URL of
/// the catalog's template for that kind, and the declared wire format.
/// Fails if and only if the kind is queue-scoped and no queue name is given.
pub fn resolve(kind: ResourceKind, params: &ConnectionParams) -> (r: Result<RequestSpec, ConfigError>)
    ensures
        r is Ok <==> (spec_requires_queue(kind) ==> params@.queue_name is Some),
        r matches Ok(spec) ==> {
            &&& spec.kind == kind
            &&& spec.format == spec_wire_format(kind)
            &&& spec.url@ == spec_url(kind, params@)
        },
        r matches Err(e) ==> e == ConfigError::MissingParameter,
{
    let mut url = String::from_str("http://");
    url.append(params.hostname.as_str());
    url.append(":");
    url.append(params.port.as_str());
    match kind {
        ResourceKind::Version => {
            url.append("/api/jolokia");
        },
        ResourceKind::Broker => {
            url.append("/api/jolokia/read/org.apache.activemq:type=Broker,brokerName=");
            url.append(params.broker_name.as_str());
        },
        ResourceKind::HeapMemoryUsage => {
            url.append("/api/jolokia/read/java.lang:type=Memory/HeapMemoryUsage");
        },
        ResourceKind::Queues => {
            url.append("/admin/xml/queues.jsp");
        },
        ResourceKind::Topics => {
            url.append("/admin/xml/topics.jsp");
        },
        ResourceKind::Subscribers => {
            url.append("/admin/xml/subscribers.jsp");
        },
        ResourceKind::QueueBrowse => {
            match &params.queue_name {
                Some(q) => {
                    url.append("/admin/queueBrowse/");
                    url.append(q.as_str());
                },
                None => {
                    return Err(ConfigError::MissingParameter);
                },
            }
        },
        ResourceKind::QueueFeedAtom => {
            match &params.queue_name {
                Some(q) => {
                    url.append("/admin/queueBrowse/");
                    url.append(q.as_str());
                    url.append("?view=rss&feedType=atom_1.0");
                },
                None => {
                    return Err(ConfigError::MissingParameter);
                },
            }
        },
        ResourceKind::QueueFeedRss => {
            match &params.queue_name {
                Some(q) => {
                    url.append("/admin/queueBrowse/");
                    url.append(q.as_str());
                    url.append("?view=rss&feedType=rss_2.0");
                },
                None => {
                    return Err(ConfigError::MissingParameter);
                },
            }
        },
    }
    Ok(RequestSpec { kind, url, format: kind.wire_format() })
}

} // verus!

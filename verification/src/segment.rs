//! The segment and subsegment documents: record types, the name-length rule,
//! and the begin/end lifecycle that stamps timestamps and status flags.

use vstd::prelude::*;
use crate::epoch::Seconds;
use crate::segment_id::SegmentId;
use crate::trace_id::TraceId;

verus! {

/// Names longer than this many characters are silently truncated.
pub const MAX_NAME_CHARS: usize = 200;

/// `name` cut to the first 200 characters when longer; shorter names are
/// kept unchanged.
pub open spec fn truncated_name(name: Seq<char>) -> Seq<char> {
    if name.len() > 200 {
        name.take(200)
    } else {
        name
    }
}

/// The version marker a fresh segment carries under its `aws.xray` block.
pub const SDK_VERSION: &'static str = "0.1.0";

/// Cuts `name` to the first 200 characters when longer.
fn truncate_name(name: &str) -> (r: String)
    ensures
        r@ == truncated_name(name@),
{
    let n = name.unicode_len();
    if n > MAX_NAME_CHARS {
        String::from_str(name.substring_char(0, MAX_NAME_CHARS))
    } else {
        String::from_str(name)
    }
}

/// A scalar value indexed for search.
#[derive(Debug)]
pub enum Annotation {
    /// A string value.
    String(String),
    /// A numeric value.
    Number(usize),
    /// A boolean value.
    Bool(bool),
}

impl Default for Annotation {
    /// The empty string annotation.
    fn default() -> (a: Annotation)
        ensures
            a matches Annotation::String(s) && s@ == Seq::<char>::empty(),
    {
        Annotation::String(String::new())
    }
}

/// A summary of a single operation within a stack trace.
#[derive(Debug)]
pub struct StackFrame {
    /// The relative path to the file.
    pub path: Option<String>,
    /// The line in the file.
    pub line: Option<String>,
    /// The function or method name.
    pub label: Option<String>,
}

/// A detailed representation of one exception.
#[derive(Debug)]
pub struct Exception {
    /// A 64-bit identifier unique among segments in the same trace, sixteen
    /// hexadecimal digits.
    pub id: String,
    /// The exception message.
    pub messages: Option<String>,
    /// Whether the exception was remote.
    pub remote: Option<bool>,
    /// How many stack frames were omitted.
    pub truncated: Option<usize>,
    /// How many exceptions were skipped between this one and its child.
    pub skipped: Option<usize>,
    /// The identifier of the exception that caused this one.
    pub cause: Option<String>,
    /// The stack frames.
    pub stack: Vec<StackFrame>,
}

/// The cause of an error: either a sixteen-character exception identifier, or
/// a full description. Serialized without a tag; the shape on the wire
/// follows the populated variant.
#[derive(Debug)]
pub enum Cause {
    /// A sixteen-character exception identifier.
    Name(String),
    /// A description of an error.
    Description {
        /// The working directory when the exception occurred.
        working_directory: String,
        /// Paths to the libraries or modules in use.
        paths: Vec<String>,
        /// The exceptions themselves.
        exceptions: Vec<Exception>,
    },
}

/// Information about the application that served the request.
#[derive(Debug, Default)]
pub struct Service {
    /// The version of the application.
    pub version: Option<String>,
}

/// The tracing SDK marker block.
#[derive(Debug, Default)]
pub struct XRay {
    /// The SDK version; always serialized, `null` when absent.
    pub sdk_version: Option<String>,
}

/// Information about an Amazon ECS container.
#[derive(Debug, Default)]
pub struct Ecs {
    /// The container identifier running the application.
    pub container: Option<String>,
}

/// Information about an EC2 instance.
#[derive(Debug, Default)]
pub struct Ec2 {
    /// The instance identifier.
    pub instance_id: Option<String>,
    /// The availability zone the instance runs in.
    pub availability_zone: Option<String>,
}

/// Information about an Elastic Beanstalk environment.
#[derive(Debug, Default)]
pub struct ElasticBeanstalk {
    /// The name of the environment.
    pub environment_name: Option<String>,
    /// The deployed application version label.
    pub version_label: Option<String>,
    /// The identifier of the last successful deployment.
    pub deployment_id: Option<usize>,
}

/// The tracing SDK name and version block.
#[derive(Debug, Default)]
pub struct Tracing {
    /// The SDK; always serialized, `null` when absent.
    pub sdk: Option<String>,
}

/// Context about the environment the document was produced in.
#[derive(Debug, Default)]
pub struct Aws {
    /// The account running the application, when segments go to another one.
    pub account_id: Option<String>,
    /// Information about an Amazon ECS container.
    pub ecs: Option<Ecs>,
    /// Information about an EC2 instance.
    pub ec2: Option<Ec2>,
    /// Information about an Elastic Beanstalk environment.
    pub elastic_beanstalk: Option<ElasticBeanstalk>,
    /// The tracing SDK block.
    pub tracing: Option<Tracing>,
    /// The SDK marker block.
    pub xray: Option<XRay>,
}

/// Information about the original HTTP request.
#[derive(Debug, Default)]
pub struct Request {
    /// The request method.
    pub method: Option<String>,
    /// The full URL of the request.
    pub url: Option<String>,
    /// The IP address of the requester.
    pub client_ip: Option<String>,
    /// The user agent of the requester.
    pub user_agent: Option<String>,
    /// Whether `client_ip` came from an `X-Forwarded-For` header.
    pub x_forwarded_for: Option<String>,
    /// Whether the downstream call is to another traced service.
    pub traced: Option<bool>,
}

/// Information about an HTTP response.
#[derive(Debug, Default)]
pub struct Response {
    /// The HTTP status of the response.
    pub status: Option<u16>,
    /// The length of the response body in bytes.
    pub content_length: Option<u64>,
}

/// One HTTP request/response cycle.
#[derive(Debug, Default)]
pub struct Http {
    /// Information about the request.
    pub request: Option<Request>,
    /// Information about the response.
    pub response: Option<Response>,
}

/// Information about a downstream operation on another service.
#[derive(Debug, Default)]
pub struct AwsOperation {
    /// The name of the API action invoked.
    pub operation: Option<String>,
    /// The account owning the resource, when it differs.
    pub account_id: Option<String>,
    /// The region of the resource, when it differs.
    pub region: Option<String>,
    /// The unique identifier of the request.
    pub request_id: Option<String>,
    /// The queue URL, for queue operations.
    pub queue_url: Option<String>,
    /// The table name, for table operations.
    pub table_name: Option<String>,
}

/// Information about a SQL operation.
#[derive(Debug, Default)]
pub struct Sql {
    /// The connection string, excluding passwords.
    pub connection_string: Option<String>,
    /// The URL connection string, excluding passwords.
    pub url: Option<String>,
    /// The query, with user-provided values removed.
    pub sanitized_query: Option<String>,
    /// The name of the database engine.
    pub database_type: Option<String>,
    /// The version of the database engine.
    pub database_version: Option<String>,
    /// The name and version of the driver.
    pub driver_version: Option<String>,
    /// The database user name.
    pub user: Option<String>,
    /// `call` for a prepared call, `statement` for a prepared statement.
    pub preparation: Option<String>,
}

/// The top-level document for one traced request.
///
/// A finalized segment always has `end_time` set and `in_progress` cleared:
/// [`Segment::end`] establishes that before the document is handed off.
#[derive(Debug)]
pub struct Segment {
    /// Connects all documents originating from a single client request.
    pub trace_id: TraceId,
    /// This segment's own identifier.
    pub id: SegmentId,
    /// The logical name of the service that handled the request, at most 200
    /// characters.
    pub name: String,
    /// When the segment was created.
    pub start_time: Seconds,
    /// When the segment was closed; absent while it is in progress.
    pub end_time: Option<Seconds>,
    /// Whether the segment is still open; omitted from the wire when false.
    pub in_progress: bool,
    /// The identifier of the calling unit of work, when the request came from
    /// an instrumented application.
    pub parent_id: Option<SegmentId>,
    /// A server error occurred.
    pub fault: bool,
    /// A client error occurred.
    pub error: bool,
    /// The request was throttled.
    pub throttle: bool,
    /// What caused the error, when one occurred.
    pub cause: Option<Cause>,
    /// The type of resource running the application.
    pub origin: Option<String>,
    /// The user who sent the request.
    pub user: Option<String>,
    /// The resource name of the application.
    pub resource_arn: Option<String>,
    /// The original HTTP request and response.
    pub http: Option<Http>,
    /// Key/value pairs indexed for search; one entry per key.
    pub annotations: Option<Vec<(String, Annotation)>>,
    /// Additional data; each value is spliced into the wire form verbatim and
    /// must already be well-formed document text.
    pub metadata: Option<Vec<(String, String)>>,
    /// The environment the document was produced in.
    pub aws: Option<Aws>,
    /// The application that served the request.
    pub service: Option<Service>,
}

impl Segment {
    /// Begins a named segment: in progress, no end time, the name cut to 200
    /// characters, and the SDK marker under `aws.xray`.
    pub fn begin(name: &str, id: SegmentId, parent_id: Option<SegmentId>, trace_id: TraceId) -> (r:
        Segment)
        ensures
            r.name@ == truncated_name(name@),
            r.id == id,
            r.parent_id == parent_id,
            r.trace_id == trace_id,
            r.in_progress == true,
            r.end_time is None,
            r.fault == false,
            r.error == false,
            r.throttle == false,
            r.cause is None,
            r.origin is None,
            r.user is None,
            r.resource_arn is None,
            r.http is None,
            r.annotations is None,
            r.metadata is None,
            r.service is None,
            r.aws matches Some(a) && a.xray matches Some(x) && x.sdk_version matches Some(v) && v@
                == SDK_VERSION@ && a.account_id is None && a.ecs is None && a.ec2 is None
                && a.elastic_beanstalk is None && a.tracing is None,
    {
        Segment {
            trace_id,
            id,
            name: truncate_name(name),
            start_time: Seconds::now(),
            end_time: None,
            in_progress: true,
            parent_id,
            fault: false,
            error: false,
            throttle: false,
            cause: None,
            origin: None,
            user: None,
            resource_arn: None,
            http: None,
            annotations: None,
            metadata: None,
            aws: Some(
                Aws {
                    account_id: None,
                    ecs: None,
                    ec2: None,
                    elastic_beanstalk: None,
                    tracing: None,
                    xray: Some(XRay { sdk_version: Some(String::from_str(SDK_VERSION)) }),
                },
            ),
            service: None,
        }
    }

    /// Ends the segment: stamps `end_time` to now and clears `in_progress`,
    /// leaving every other field unchanged. Calling it again overwrites the
    /// timestamp.
    pub fn end(&mut self)
        ensures
            final(self).end_time is Some,
            final(self).in_progress == false,
            *final(self) == (Segment {
                end_time: final(self).end_time,
                in_progress: false,
                ..*old(self)
            }),
    {
        self.end_time = Some(Seconds::now());
        self.in_progress = false;
    }
}

impl Default for Segment {
    /// An empty in-memory segment: fresh identifiers, an empty name, start
    /// time now, no end time, not in progress, and every optional block
    /// absent.
    fn default() -> (r: Segment)
        ensures
            r.name@ == Seq::<char>::empty(),
            r.in_progress == false,
            r.end_time is None,
            r.parent_id is None,
            r.fault == false,
            r.error == false,
            r.throttle == false,
            r.cause is None,
            r.origin is None,
            r.user is None,
            r.resource_arn is None,
            r.http is None,
            r.annotations is None,
            r.metadata is None,
            r.aws is None,
            r.service is None,
    {
        Segment {
            trace_id: TraceId::new(),
            id: SegmentId::new(),
            name: String::new(),
            start_time: Seconds::now(),
            end_time: None,
            in_progress: false,
            parent_id: None,
            fault: false,
            error: false,
            throttle: false,
            cause: None,
            origin: None,
            user: None,
            resource_arn: None,
            http: None,
            annotations: None,
            metadata: None,
            aws: None,
            service: None,
        }
    }
}

/// A nested unit of work within a segment, such as one downstream call.
#[derive(Debug)]
pub struct Subsegment {
    /// The logical name of the call this subsegment instruments, at most 200
    /// characters.
    pub name: String,
    /// This subsegment's own identifier.
    pub id: SegmentId,
    /// When the subsegment was created.
    pub start_time: Seconds,
    /// When the subsegment was closed; absent while it is in progress.
    pub end_time: Option<Seconds>,
    /// The trace this subsegment belongs to; required only when it is sent
    /// separately from its parent.
    pub trace_id: Option<TraceId>,
    /// The identifier of the enclosing unit of work.
    pub parent_id: Option<SegmentId>,
    /// Whether the subsegment is still open; omitted from the wire when
    /// false.
    pub in_progress: bool,
    /// A server error occurred.
    pub fault: bool,
    /// A client error occurred.
    pub error: bool,
    /// The request was throttled.
    pub throttled: bool,
    /// `aws` for SDK-mediated calls, `remote` for other downstream calls.
    pub namespace: Option<String>,
    /// Whether the downstream call is to another traced service.
    pub traced: Option<bool>,
    /// Identifiers of subsegments with the same parent that completed before
    /// this one.
    pub precursor_ids: Option<Vec<String>>,
    /// What caused the error, when one occurred.
    pub cause: Option<Cause>,
    /// Key/value pairs indexed for search; one entry per key.
    pub annotations: Option<Vec<(String, Annotation)>>,
    /// Additional data; each value is spliced into the wire form verbatim and
    /// must already be well-formed document text.
    pub metadata: Option<Vec<(String, String)>>,
    /// The discriminant tag, fixed to `subsegment`; serialized as `type`.
    pub type_: String,
    /// Child subsegments, serialized inline.
    pub subsegments: Vec<Subsegment>,
    /// The outgoing HTTP call.
    pub http: Option<Http>,
    /// The downstream resource the application called.
    pub aws: Option<AwsOperation>,
    /// The SQL query behind this call.
    pub sql: Option<Sql>,
}

impl Subsegment {
    /// Begins a named subsegment: in progress, no end time, the name cut to
    /// 200 characters, and the `subsegment` discriminant tag.
    pub fn begin(name: &str, id: SegmentId, parent_id: Option<SegmentId>, trace_id: TraceId) -> (r:
        Subsegment)
        ensures
            r.name@ == truncated_name(name@),
            r.id == id,
            r.parent_id == parent_id,
            r.trace_id == Some(trace_id),
            r.in_progress == true,
            r.end_time is None,
            r.type_@ == "subsegment"@,
            r.fault == false,
            r.error == false,
            r.throttled == false,
            r.namespace is None,
            r.traced is None,
            r.precursor_ids is None,
            r.cause is None,
            r.annotations is None,
            r.metadata is None,
            r.subsegments@ == Seq::<Subsegment>::empty(),
            r.http is None,
            r.aws is None,
            r.sql is None,
    {
        Subsegment {
            name: truncate_name(name),
            id,
            start_time: Seconds::now(),
            end_time: None,
            trace_id: Some(trace_id),
            parent_id,
            in_progress: true,
            fault: false,
            error: false,
            throttled: false,
            namespace: None,
            traced: None,
            precursor_ids: None,
            cause: None,
            annotations: None,
            metadata: None,
            type_: String::from_str("subsegment"),
            subsegments: Vec::new(),
            http: None,
            aws: None,
            sql: None,
        }
    }

    /// Ends the subsegment: stamps `end_time` to now and clears
    /// `in_progress`, leaving every other field unchanged. Calling it again
    /// overwrites the timestamp.
    pub fn end(&mut self)
        ensures
            final(self).end_time is Some,
            final(self).in_progress == false,
            *final(self) == (Subsegment {
                end_time: final(self).end_time,
                in_progress: false,
                ..*old(self)
            }),
    {
        self.end_time = Some(Seconds::now());
        self.in_progress = false;
    }
}

impl Default for Subsegment {
    /// An empty in-memory subsegment: a fresh identifier, empty name and tag,
    /// start time now, no end time, not in progress, no trace or parent, and
    /// every optional block absent.
    fn default() -> (r: Subsegment)
        ensures
            r.name@ == Seq::<char>::empty(),
            r.in_progress == false,
            r.end_time is None,
            r.trace_id is None,
            r.parent_id is None,
            r.fault == false,
            r.error == false,
            r.throttled == false,
            r.namespace is None,
            r.traced is None,
            r.precursor_ids is None,
            r.cause is None,
            r.annotations is None,
            r.metadata is None,
            r.type_@ == Seq::<char>::empty(),
            r.subsegments@ == Seq::<Subsegment>::empty(),
            r.http is None,
            r.aws is None,
            r.sql is None,
    {
        Subsegment {
            name: String::new(),
            id: SegmentId::new(),
            start_time: Seconds::now(),
            end_time: None,
            trace_id: None,
            parent_id: None,
            in_progress: false,
            fault: false,
            error: false,
            throttled: false,
            namespace: None,
            traced: None,
            precursor_ids: None,
            cause: None,
            annotations: None,
            metadata: None,
            type_: String::new(),
            subsegments: Vec::new(),
            http: None,
            aws: None,
            sql: None,
        }
    }
}

} // verus!

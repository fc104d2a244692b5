//! Access-key resources of the Kong API gateway: a consumer with its request
//! transformer, and the two secrets that hold its ACL group and its key.
use vstd::prelude::*;
use vstd::string::StringSliceAdditionalSpecFns;

use crate::error::FigError;
use crate::util::{all_lower_alphanumeric, is_lower_alphanumeric, random_alphanum};

verus! {

/// Marks an error of uuid's parser.
#[verifier::external_type_specification]
#[verifier::external_body]
pub struct ExUuidError(uuid::Error);

/// The base64 encoding (standard alphabet, with padding) of the UTF-8 bytes
/// of a text.
pub uninterp spec fn base64_of_text(text: Seq<char>) -> Seq<char>;

/// The lowercase hyphenated form of a UUID written in any form that uuid's
/// parser accepts; `None` for a text that is no UUID.
pub uninterp spec fn uuid_hyphenated(text: Seq<char>) -> Option<Seq<char>>;

/// Relies on base64's `encode`, which panics only when the length of the
/// output overflows `usize`.
#[verifier::external_body]
fn base64_encode(s: &str) -> (r: String)
    requires
        s.spec_bytes().len() <= isize::MAX,
    ensures
        r@ == base64_of_text(s@),
{
    base64::encode(s)
}

/// Relies on uuid's `Uuid::try_parse`, and on its `Display`, which writes
/// the hyphenated lowercase form of 36 characters.
#[verifier::external_body]
fn parse_uuid(text: &str) -> (r: Result<String, uuid::Error>)
    ensures
        match r {
            Ok(h) => uuid_hyphenated(text@) == Some(h@) && h@.len() == 36,
            Err(_) => uuid_hyphenated(text@) is None,
        },
{
    uuid::Uuid::try_parse(text).map(|u| u.to_string())
}

/// The consumer and its request transformer, which adds the header
/// `x-uuid` and removes the API key from forwarded requests.
pub open spec fn kong_consumer_text(name: Seq<char>, namespace: Seq<char>, uuid: Seq<char>) -> Seq<
    char,
> {
    "---\napiVersion: configuration.konghq.com/v1\nkind: KongConsumer\nmetadata:\n  annotations:\n    konghq.com/plugins: "@
        + name + "-request-transformer\n    kubernetes.io/ingress.class: kong\n  name: "@ + name
        + "\n  namespace: "@ + namespace + "\nusername: "@ + name + "\ncredentials:\n- "@ + name
        + "-kong-keyauth\n- "@ + name
        + "-kong-acl\n---\napiVersion: configuration.konghq.com/v1\nconfig:\n  remove:\n    headers:\n    - x-uuid\n    querystring:\n    - apikey\n  add:\n    headers:\n    - x-uuid:"@
        + uuid + "\nconsumerRef: "@ + name + "\nkind: KongPlugin\nmetadata:\n  name: "@ + name
        + "-request-transformer\n  namespace: "@ + namespace + "\nplugin: request-transformer"@
}

/// The secrets of the consumer: its ACL group and its key, both in base64.
pub open spec fn kong_secrets_text(
    name: Seq<char>,
    namespace: Seq<char>,
    group64: Seq<char>,
    key64: Seq<char>,
) -> Seq<char> {
    "---\napiVersion: v1\ndata:\n  group: "@ + group64
        + "\n  kongCredType: YWNs\nkind: Secret\nmetadata:\n  name: "@ + name
        + "-kong-acl\n  namespace: "@ + namespace
        + "\ntype: Opaque\n---\napiVersion: v1\ndata:\n  key: "@ + key64
        + "\n  kongCredType: a2V5LWF1dGg=\nkind: Secret\nmetadata:\n  name: "@ + name
        + "-kong-keyauth\n  namespace: "@ + namespace + "\ntype: Opaque"@
}

/// The generated resources and the key they hold.
#[derive(Debug, Clone)]
pub struct KongResources {
    pub consumer: String,
    pub secrets: String,
    /// The generated API key, before encoding.
    pub key: String,
}

/// The length of a generated API key.
pub const KONG_KEY_LEN: usize = 50;

/// Generates the resources of a new API key for consumer `name` in
/// `namespace`, member of `acl_group`, identified by `uuid`. The key is 50
/// random lowercase letters and digits. Fails when `uuid` is no UUID.
pub fn generate_kong_api_keys(namespace: &str, name: &str, acl_group: &str, uuid: &str) -> (r:
    Result<KongResources, FigError>)
    requires
        acl_group.spec_bytes().len() <= isize::MAX,
    ensures
        r is Err <==> uuid_hyphenated(uuid@) is None,
        r matches Err(e) ==> e is UuidError,
        r matches Ok(k) ==> {
            &&& k.consumer@ == kong_consumer_text(name@, namespace@, uuid_hyphenated(uuid@)->Some_0)
            &&& k.key@.len() == KONG_KEY_LEN
            &&& all_lower_alphanumeric(k.key@)
            &&& k.secrets@ == kong_secrets_text(
                name@,
                namespace@,
                base64_of_text(acl_group@),
                base64_of_text(k.key@),
            )
        },
{
    let id = match parse_uuid(uuid) {
        Ok(h) => h,
        Err(_) => {
            return Err(FigError::UuidError("invalid UUID".to_owned()));
        },
    };
    let mut c = "---\napiVersion: configuration.konghq.com/v1\nkind: KongConsumer\nmetadata:\n  annotations:\n    konghq.com/plugins: ".to_owned();
    c.append(name);
    c.append("-request-transformer\n    kubernetes.io/ingress.class: kong\n  name: ");
    c.append(name);
    c.append("\n  namespace: ");
    c.append(namespace);
    c.append("\nusername: ");
    c.append(name);
    c.append("\ncredentials:\n- ");
    c.append(name);
    c.append("-kong-keyauth\n- ");
    c.append(name);
    c.append(
        "-kong-acl\n---\napiVersion: configuration.konghq.com/v1\nconfig:\n  remove:\n    headers:\n    - x-uuid\n    querystring:\n    - apikey\n  add:\n    headers:\n    - x-uuid:",
    );
    c.append(id.as_str());
    c.append("\nconsumerRef: ");
    c.append(name);
    c.append("\nkind: KongPlugin\nmetadata:\n  name: ");
    c.append(name);
    c.append("-request-transformer\n  namespace: ");
    c.append(namespace);
    c.append("\nplugin: request-transformer");

    let group64 = base64_encode(acl_group);
    let key = random_alphanum(KONG_KEY_LEN);
    let key_str = key.as_str();
    proof {
        assert(vstd::utf8::is_ascii_chars(key_str@)) by {
            assert forall|i: int| 0 <= i < key_str@.len() implies '\0' <= #[trigger] key_str@[i]
                <= '\u{7f}' by {
                assert(is_lower_alphanumeric(key_str@[i]));
            }
        }
        vstd::string::is_ascii_spec_bytes(key_str);
    }
    let key64 = base64_encode(key_str);

    let mut s = "---\napiVersion: v1\ndata:\n  group: ".to_owned();
    s.append(group64.as_str());
    s.append("\n  kongCredType: YWNs\nkind: Secret\nmetadata:\n  name: ");
    s.append(name);
    s.append("-kong-acl\n  namespace: ");
    s.append(namespace);
    s.append("\ntype: Opaque\n---\napiVersion: v1\ndata:\n  key: ");
    s.append(key64.as_str());
    s.append("\n  kongCredType: a2V5LWF1dGg=\nkind: Secret\nmetadata:\n  name: ");
    s.append(name);
    s.append("-kong-keyauth\n  namespace: ");
    s.append(namespace);
    s.append("\ntype: Opaque");
    Ok(KongResources { consumer: c, secrets: s, key })
}

} // verus!

//! The settings with which the server configures the two services and the
//! capabilities that they use.

use vstd::prelude::*;

use crate::catalog::signers_of;
use crate::errors::ErrorKind;
use crate::jwt::jwt_signers;
use crate::jwt::jwt_subject;
use crate::jwt::peek_subject;
use crate::jwt::valid_signers;
use crate::streams::CATALOG_ACTOR;
use crate::text::comma;
use crate::text::free_of;
use crate::text::join;
use crate::text::join_commas;
use crate::text::lemma_split_join;
use crate::text::owned;
use crate::text::views;

verus! {

/// One setting: a key and its value.
#[derive(Debug, PartialEq)]
pub struct Setting {
    pub key: String,
    pub value: String,
}

impl View for Setting {
    type V = (Seq<char>, Seq<char>);

    open spec fn view(&self) -> (Seq<char>, Seq<char>) {
        (self.key@, self.value@)
    }
}

/// The views of a list of settings, in order.
pub open spec fn settings(list: Seq<Setting>) -> Seq<(Seq<char>, Seq<char>)> {
    list.map_values(|s: Setting| s@)
}

fn setting(key: &str, value: &str) -> (r: Setting)
    ensures
        r@ == (key@, value@),
{
    Setting { key: owned(key), value: owned(value) }
}

/// The settings of a messaging binding that subscribes to `sub`.
pub fn generate_config(sub: &str) -> (r: Vec<Setting>)
    ensures
        settings(r@) == seq![("SUBSCRIPTION"@, sub@), ("URL"@, "nats://localhost:4222"@)],
{
    let mut list: Vec<Setting> = Vec::new();
    list.push(setting("SUBSCRIPTION", sub));
    list.push(setting("URL", "nats://localhost:4222"));
    proof {
        assert(settings(list@) =~= seq![
            ("SUBSCRIPTION"@, sub@),
            ("URL"@, "nats://localhost:4222"@),
        ]);
    }
    list
}

/// The settings of the key-value binding.
pub fn redis_config() -> (r: Vec<Setting>)
    ensures
        settings(r@) == seq![("URL"@, "redis://127.0.0.1:6379"@)],
{
    let mut list: Vec<Setting> = Vec::new();
    list.push(setting("URL", "redis://127.0.0.1:6379"));
    proof {
        assert(settings(list@) =~= seq![("URL"@, "redis://127.0.0.1:6379"@)]);
    }
    list
}

/// The settings that tell the catalog its operator and the operator's signers:
/// the operator's public key, and the signers' public keys with commas between.
pub fn operator_config(op: &str, valid_signers: &Vec<String>) -> (r: Vec<Setting>)
    ensures
        settings(r@) == seq![
            ("operator"@, op@),
            ("signers"@, join(views(valid_signers@), comma())),
        ],
{
    let mut list: Vec<Setting> = Vec::new();
    list.push(setting("operator", op));
    let joined: String = join_commas(valid_signers);
    list.push(setting("signers", joined.as_str()));
    proof {
        assert(settings(list@) =~= seq![
            ("operator"@, op@),
            ("signers"@, join(views(valid_signers@), comma())),
        ]);
    }
    list
}

/// The settings of the blob binding.
pub fn generate_fs_config() -> (r: Vec<Setting>)
    ensures
        settings(r@) == seq![
            ("ENDPOINT"@, "http://localhost:9000"@),
            ("REGION"@, "us-east-1"@),
            ("AWS_ACCESS_KEY"@, "minioadmin"@),
            ("AWS_SECRET_ACCESS_KEY"@, "minioadmin"@),
        ],
{
    let mut list: Vec<Setting> = Vec::new();
    list.push(setting("ENDPOINT", "http://localhost:9000"));
    list.push(setting("REGION", "us-east-1"));
    list.push(setting("AWS_ACCESS_KEY", "minioadmin"));
    list.push(setting("AWS_SECRET_ACCESS_KEY", "minioadmin"));
    proof {
        assert(settings(list@) =~= seq![
            ("ENDPOINT"@, "http://localhost:9000"@),
            ("REGION"@, "us-east-1"@),
            ("AWS_ACCESS_KEY"@, "minioadmin"@),
            ("AWS_SECRET_ACCESS_KEY"@, "minioadmin"@),
        ]);
    }
    list
}

/// The public key of the stream service.
pub const STREAMS_ACTOR: &'static str = "MATR36QS6IWITSNUS2I7V72R2I3ALJCIS2Y4FJQJZ33KQN5MRXDNJMJ2";

/// The subjects that the catalog subscribes to.
pub const CATALOG_SUBSCRIPTION: &'static str = "gantry.catalog.tokens.*";

/// The subjects that the stream service subscribes to.
pub const STREAMS_SUBSCRIPTION: &'static str =
    "gantry.stream.get,gantry.stream.put,gantry.stream.upload.*";

/// The capability of a key-value store.
pub const KEYVALUE: &'static str = "wascc:keyvalue";

/// The capability of a message broker.
pub const MESSAGING: &'static str = "wascc:messaging";

/// The capability of a blob store.
pub const BLOBSTORE: &'static str = "wascc:blobstore";

/// The settings with which an actor is bound to a capability.
#[derive(Debug, PartialEq)]
pub struct Binding {
    pub actor: String,
    pub capability: String,
    pub settings: Vec<Setting>,
}

/// A binding as mathematical data.
pub struct BindingView {
    pub actor: Seq<char>,
    pub capability: Seq<char>,
    pub settings: Seq<(Seq<char>, Seq<char>)>,
}

impl View for Binding {
    type V = BindingView;

    open spec fn view(&self) -> BindingView {
        BindingView {
            actor: self.actor@,
            capability: self.capability@,
            settings: settings(self.settings@),
        }
    }
}

/// The views of a list of bindings, in order.
pub open spec fn binding_views(list: Seq<Binding>) -> Seq<BindingView> {
    list.map_values(|b: Binding| b@)
}

/// The bindings of the server, in the order in which it makes them: the
/// catalog to the key-value store and to the broker, the stream service to
/// the broker, the catalog to its own configuration with the operator and the
/// operator's signers, and the stream service to the blob store.
pub open spec fn server_bindings(operator: Seq<char>, signers: Seq<Seq<char>>) -> Seq<BindingView> {
    seq![
        BindingView {
            actor: CATALOG_ACTOR@,
            capability: KEYVALUE@,
            settings: seq![("URL"@, "redis://127.0.0.1:6379"@)],
        },
        BindingView {
            actor: CATALOG_ACTOR@,
            capability: MESSAGING@,
            settings: seq![
                ("SUBSCRIPTION"@, CATALOG_SUBSCRIPTION@),
                ("URL"@, "nats://localhost:4222"@),
            ],
        },
        BindingView {
            actor: STREAMS_ACTOR@,
            capability: MESSAGING@,
            settings: seq![
                ("SUBSCRIPTION"@, STREAMS_SUBSCRIPTION@),
                ("URL"@, "nats://localhost:4222"@),
            ],
        },
        BindingView {
            actor: CATALOG_ACTOR@,
            capability: CATALOG_ACTOR@,
            settings: seq![("operator"@, operator), ("signers"@, join(signers, comma()))],
        },
        BindingView {
            actor: STREAMS_ACTOR@,
            capability: BLOBSTORE@,
            settings: seq![
                ("ENDPOINT"@, "http://localhost:9000"@),
                ("REGION"@, "us-east-1"@),
                ("AWS_ACCESS_KEY"@, "minioadmin"@),
                ("AWS_SECRET_ACCESS_KEY"@, "minioadmin"@),
            ],
        },
    ]
}

fn binding(actor: &str, capability: &str, settings: Vec<Setting>) -> (r: Binding)
    ensures
        r@ == (BindingView {
            actor: actor@,
            capability: capability@,
            settings: self::settings(settings@),
        }),
{
    Binding { actor: owned(actor), capability: owned(capability), settings }
}

/// The bindings that the server makes once the actors and the capability
/// providers are loaded, for the operator with the given public key and
/// signers.
pub fn handle_command(operator: &str, valid_signers: &Vec<String>) -> (r: Vec<Binding>)
    ensures
        binding_views(r@) == server_bindings(operator@, views(valid_signers@)),
{
    let mut list: Vec<Binding> = Vec::new();
    list.push(binding(CATALOG_ACTOR, KEYVALUE, redis_config()));
    list.push(binding(CATALOG_ACTOR, MESSAGING, generate_config(CATALOG_SUBSCRIPTION)));
    list.push(binding(STREAMS_ACTOR, MESSAGING, generate_config(STREAMS_SUBSCRIPTION)));
    list.push(binding(CATALOG_ACTOR, CATALOG_ACTOR, operator_config(operator, valid_signers)));
    list.push(binding(STREAMS_ACTOR, BLOBSTORE, generate_fs_config()));
    proof {
        assert(binding_views(list@) =~= server_bindings(operator@, views(valid_signers@)));
    }
    list
}

/// The bindings of the server for the operator whose signed token is given.
/// The token is invalid where it does not decode. Where it decodes but names
/// no signers there are no bindings to make.
pub open spec fn bindings_for(
    subject: Option<Seq<char>>,
    signers: Option<Seq<Seq<char>>>,
) -> Result<Option<Seq<BindingView>>, ErrorKind> {
    match subject {
        None => Err(ErrorKind::InvalidToken),
        Some(operator) => match signers {
            None => Ok(None),
            Some(signers) => Ok(Some(server_bindings(operator, signers))),
        },
    }
}

/// The view of the outcome of `operator_bindings`.
pub open spec fn bindings_view(outcome: Result<Option<Vec<Binding>>, ErrorKind>) -> Result<
    Option<Seq<BindingView>>,
    ErrorKind,
> {
    match outcome {
        Ok(Some(list)) => Ok(Some(binding_views(list@))),
        Ok(None) => Ok(None),
        Err(e) => Err(e),
    }
}

/// Decodes the operator's signed token and gives the bindings of the server
/// for the operator's public key and signers.
pub fn operator_bindings(operator_jwt: &str) -> (r: Result<Option<Vec<Binding>>, ErrorKind>)
    ensures
        bindings_view(r) == bindings_for(jwt_subject(operator_jwt@), jwt_signers(operator_jwt@)),
{
    let operator: String = match peek_subject(operator_jwt) {
        Some(subject) => subject,
        None => {
            return Err(ErrorKind::InvalidToken);
        },
    };
    match valid_signers(operator_jwt) {
        None => Ok(None),
        Some(signers) => Ok(Some(handle_command(operator.as_str(), &signers))),
    }
}

/// The catalog reads out of the operator's settings the keys that the server
/// wrote into them: the operator's, then the signers' in order. This holds where
/// there is a signer and no signer's key holds a comma.
pub proof fn lemma_catalog_reads_operator_config(operator: Seq<char>, signers: Seq<Seq<char>>)
    requires
        signers.len() >= 1,
        free_of(signers, comma()),
    ensures
        signers_of(operator, join(signers, comma())) == seq![operator] + signers,
{
    lemma_split_join(signers, comma());
}

} // verus!

//! What a generated gRPC client resolves from the parameters of its
//! attribute: the message size limits of its service, the check that every
//! overridden method exists in the service, the name under which it reads
//! its settings, and the `use` lines that bring its service into scope.

use vstd::prelude::*;

verus! {

/// The message size limit of a client whose attribute sets none: 4 MiB.
pub const DEFAULT_MESSAGE_SIZE: usize = 4usize * 1024usize * 1024usize;

/// The value of an optional parameter, or `default` where it is not given.
pub open spec fn given_or(param: Option<usize>, default: usize) -> usize {
    match param {
        Some(value) => value,
        None => default,
    }
}

/// The size limits of the messages a client decodes and encodes.
pub struct MessageSizes {
    pub max_decoding_message_size: usize,
    pub max_encoding_message_size: usize,
}

/// Resolves the size limits: a limit given for one direction wins; else
/// the general `max_message_size`; else `DEFAULT_MESSAGE_SIZE`.
pub fn resolve_message_sizes(
    max_message_size: Option<usize>,
    max_decoding_message_size: Option<usize>,
    max_encoding_message_size: Option<usize>,
) -> (res: MessageSizes)
    ensures
        res.max_decoding_message_size == given_or(
            max_decoding_message_size,
            given_or(max_message_size, DEFAULT_MESSAGE_SIZE),
        ),
        res.max_encoding_message_size == given_or(
            max_encoding_message_size,
            given_or(max_message_size, DEFAULT_MESSAGE_SIZE),
        ),
        max_decoding_message_size matches Some(d) ==> res.max_decoding_message_size == d,
        max_encoding_message_size matches Some(e) ==> res.max_encoding_message_size == e,
        max_decoding_message_size is None ==> (max_message_size matches Some(m)
            ==> res.max_decoding_message_size == m),
        max_encoding_message_size is None ==> (max_message_size matches Some(m)
            ==> res.max_encoding_message_size == m),
        max_decoding_message_size is None && max_message_size is None
            ==> res.max_decoding_message_size == 4194304,
        max_encoding_message_size is None && max_message_size is None
            ==> res.max_encoding_message_size == 4194304,
{
    let max_message_size = match max_message_size {
        Some(value) => value,
        None => DEFAULT_MESSAGE_SIZE,
    };
    let max_decoding_message_size = match max_decoding_message_size {
        Some(value) => value,
        None => max_message_size,
    };
    let max_encoding_message_size = match max_encoding_message_size {
        Some(value) => value,
        None => max_message_size,
    };
    MessageSizes { max_decoding_message_size, max_encoding_message_size }
}

/// Whether the service declares a method named `name`.
pub open spec fn declares_method(proto_methods: Seq<String>, name: Seq<char>) -> bool {
    exists|k: int| 0 <= k < proto_methods.len() && (#[trigger] proto_methods[k])@ == name
}

/// Whether `proto_methods` holds a method named `name`.
fn has_method(proto_methods: &Vec<String>, name: &String) -> (res: bool)
    ensures
        res == declares_method(proto_methods@, name@),
        res == exists|k: int| 0 <= k < proto_methods@.len() && (#[trigger] proto_methods@[k])@ == name@,
{
    let mut k: usize = 0;
    while k < proto_methods.len()
        invariant
            k <= proto_methods.len(),
            forall|j: int| 0 <= j < k ==> (#[trigger] proto_methods@[j])@ != name@,
        decreases proto_methods.len() - k,
    {
        if proto_methods[k] == *name {
            return true;
        }
        k = k + 1;
    }
    false
}

/// The first overridden method that the service does not declare, by its
/// index in `override_names`; `None` when the service declares them all.
pub fn find_unknown_override(override_names: &Vec<String>, proto_methods: &Vec<String>) -> (res:
    Option<usize>)
    ensures
        match res {
            None => forall|i: int|
                0 <= i < override_names.len() ==> declares_method(
                    proto_methods@,
                    (#[trigger] override_names@[i])@,
                ),
            Some(i) => {
                &&& i < override_names.len()
                &&& !declares_method(proto_methods@, override_names@[i as int]@)
                &&& forall|j: int|
                    0 <= j < i ==> declares_method(proto_methods@, (#[trigger] override_names@[j])@)
            },
        },
{
    let mut i: usize = 0;
    while i < override_names.len()
        invariant
            i <= override_names.len(),
            forall|j: int|
                0 <= j < i ==> declares_method(proto_methods@, (#[trigger] override_names@[j])@),
        decreases override_names.len() - i,
    {
        if !has_method(proto_methods, &override_names[i]) {
            return Some(i);
        }
        i = i + 1;
    }
    None
}

/// The error text for an overridden method that the service lacks.
pub fn unknown_method_message(method_name: &str, service_name: &str) -> (res: String)
    ensures
        res@ == "Method "@ + method_name@ + " is not found in proto file for service "@
            + service_name@,
{
    let res = String::from_str("Method ");
    let res = res.concat(method_name);
    let res = res.concat(" is not found in proto file for service ");
    res.concat(service_name)
}

/// Checks the overridden methods against the service: `Ok` when the service
/// declares every one of them; else an error that names the first one it
/// lacks and the service.
pub fn check_overrides(override_names: &Vec<String>, proto_methods: &Vec<String>, service_name: &str) -> (res:
    Result<(), String>)
    ensures
        res is Ok <==> forall|i: int|
            0 <= i < override_names.len() ==> declares_method(
                proto_methods@,
                (#[trigger] override_names@[i])@,
            ),
        res matches Err(message) ==> exists|i: int|
            {
                &&& 0 <= i < override_names.len()
                &&& !declares_method(proto_methods@, (#[trigger] override_names@[i])@)
                &&& forall|j: int|
                    0 <= j < i ==> declares_method(proto_methods@, (#[trigger] override_names@[j])@)
                &&& forall|k: int| 0 <= k < proto_methods@.len() ==> (#[trigger] proto_methods@[k])@
                    != override_names@[i]@
                &&& message@ == "Method "@ + override_names@[i]@
                    + " is not found in proto file for service "@ + service_name@
            },
{
    match find_unknown_override(override_names, proto_methods) {
        None => {
            Ok(())
        },
        Some(i) => {
            let message = unknown_method_message(override_names[i].as_str(), service_name);
            assert(!declares_method(proto_methods@, override_names@[i as int]@));
            assert forall|k: int| 0 <= k < proto_methods@.len() implies (#[trigger] proto_methods@[k])@
                != override_names@[i as int]@ by {
                if proto_methods@[k]@ == override_names@[i as int]@ {
                    assert(declares_method(proto_methods@, override_names@[i as int]@));
                }
            }
            Err(message)
        },
    }
}

/// A limit that is given is used as given, whatever the fallback; only a
/// limit that is missing takes the fallback.
pub proof fn law_given_limit_is_used(value: usize, fallback: usize)
    ensures
        given_or(Some(value), fallback) == value,
        given_or(None, fallback) == fallback,
{
}

/// A service declares a method name exactly when one of its methods has
/// that very name: a name that differs from every method name, even one
/// that extends a method name, is not declared.
pub proof fn law_declared_means_same_name(proto_methods: Seq<String>, name: Seq<char>)
    ensures
        declares_method(proto_methods, name) <==> exists|k: int|
            0 <= k < proto_methods.len() && (#[trigger] proto_methods[k])@ == name,
        (forall|k: int| 0 <= k < proto_methods.len() ==> (#[trigger] proto_methods[k])@ != name)
            ==> !declares_method(proto_methods, name),
{
}

/// The name under which the client reads its settings: the `service_name`
/// parameter where it is given, else the name of the client's struct.
pub fn settings_service_name(service_name_param: Option<String>, struct_name: String) -> (res:
    String)
    ensures
        res@ == match service_name_param {
            Some(name) => name@,
            None => struct_name@,
        },
{
    match service_name_param {
        Some(name) => name,
        None => struct_name,
    }
}

/// The `use` lines of a generated client: all of the crate namespace
/// `crate_ns`, and the client type `service_name` from its module
/// `service_module` there.
pub fn client_use_lines(crate_ns: &str, service_module: &str, service_name: &str) -> (res: Vec<
    String,
>)
    ensures
        res@.len() == 2,
        res@[0]@ == "use "@ + crate_ns@ + "::*"@,
        res@[1]@ == "use "@ + crate_ns@ + "::"@ + service_module@ + "::"@ + service_name@,
{
    let mut res: Vec<String> = Vec::new();
    let all = String::from_str("use ").concat(crate_ns).concat("::*");
    res.push(all);
    let client = String::from_str("use ").concat(crate_ns).concat("::").concat(service_module).concat(
        "::",
    ).concat(service_name);
    res.push(client);
    res
}

} // verus!

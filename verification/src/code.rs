//! On-demand code generation for one service in one language.

use vstd::prelude::*;
use crate::buf::build_lines;
use crate::cs::service::{generate_service_cs, service_lines, service_ok};
use crate::js::service::{generate_service_js, service_js_lines, service_js_ok};
use crate::model::{Lang, Service};
use crate::rs::service::{generate_service_rs, service_rs_lines, service_rs_ok};
use crate::text::{cat3, owned, str_eq};

verus! {

/// Why code could not be generated.
pub enum CodeError {
    /// No registered service has the requested name (or the name is empty).
    ServiceNotFound(String),
    /// The requested language's generator is not part of this build.
    LangNotEnabled(String),
}

/// The text describing an error.
pub open spec fn code_error_text(e: CodeError) -> Seq<char> {
    match e {
        CodeError::ServiceNotFound(name) => "service '"@ + name@ + "' not found"@,
        CodeError::LangNotEnabled(lang) => "language '"@ + lang@ + "' generation is not enabled"@,
    }
}

impl CodeError {
    /// Returns the text describing the error.
    pub fn message(&self) -> (r: String)
        ensures
            r@ == code_error_text(*self),
    {
        match self {
            CodeError::ServiceNotFound(name) => cat3("service '", name.as_str(), "' not found"),
            CodeError::LangNotEnabled(lang) => cat3("language '", lang.as_str(), "' generation is not enabled"),
        }
    }
}

/// The position of the first service named `name`, if any.
pub open spec fn find_service(svcs: Seq<Service>, name: Seq<char>) -> Option<int>
    decreases svcs.len(),
{
    if svcs.len() == 0 {
        None
    } else {
        match find_service(svcs.drop_last(), name) {
            Some(i) => Some(i),
            None => if svcs.last().name@ == name {
                Some(svcs.len() - 1)
            } else {
                None
            },
        }
    }
}

pub(crate) proof fn lemma_find_service(svcs: Seq<Service>, name: Seq<char>)
    ensures
        match find_service(svcs, name) {
            Some(i) => 0 <= i < svcs.len() && svcs[i].name@ == name && forall|j: int|
                0 <= j < i ==> svcs[j].name@ != name,
            None => forall|j: int| 0 <= j < svcs.len() ==> svcs[j].name@ != name,
        },
    decreases svcs.len(),
{
    if svcs.len() > 0 {
        lemma_find_service(svcs.drop_last(), name);
        assert forall|j: int| 0 <= j < svcs.len() - 1 implies svcs.drop_last()[j] == svcs[j] by {}
    }
}

/// The language's generator can handle the service.
pub open spec fn lang_ok(svc: Service, lang: Lang) -> bool {
    match lang {
        Lang::JS(_) => service_js_ok(svc),
        Lang::RS(_) => service_rs_ok(svc),
        Lang::CS(_) => service_ok(svc),
        _ => true,
    }
}

pub(crate) fn find_service_exec(services: &Vec<Service>, name: &str) -> (r: Option<usize>)
    ensures
        match r {
            Some(i) => find_service(services@, name@) == Some(i as int),
            None => find_service(services@, name@) is None,
        },
{
    proof {
        lemma_find_service(services@, name@);
    }
    let mut i: usize = 0;
    while i < services.len()
        invariant
            i <= services@.len(),
            forall|j: int| 0 <= j < i ==> services@[j].name@ != name@,
            match find_service(services@, name@) {
                Some(k) => 0 <= k < services@.len() && services@[k].name@ == name@ && forall|j: int|
                    0 <= j < k ==> services@[j].name@ != name@,
                None => forall|j: int| 0 <= j < services@.len() ==> services@[j].name@ != name@,
            },
        decreases services@.len() - i,
    {
        if str_eq(services[i].name.as_str(), name) {
            return Some(i);
        }
        i = i + 1;
    }
    None
}

/// Generates the client code of the service named `service_name` in the
/// language `lang`, with the transports that `lang` carries. An empty or
/// unknown name gives `ServiceNotFound`; TypeScript and Kotlin, whose
/// generators are not part of this build, give `LangNotEnabled`.
pub fn generate_code(services: &Vec<Service>, service_name: &str, lang: &Lang) -> (r: Result<String, CodeError>)
    requires
        forall|i: int|
            0 <= i < services@.len() && #[trigger] services@[i].name@ == service_name@ ==> lang_ok(
                services@[i],
                *lang,
            ),
    ensures
        (service_name@.len() == 0 || find_service(services@, service_name@) is None) ==> (r matches Err(
            CodeError::ServiceNotFound(n),
        ) && n@ == service_name@),
        service_name@.len() > 0 && find_service(services@, service_name@) is Some ==> ({
            let svc = services@[find_service(services@, service_name@)->0];
            match *lang {
                Lang::TS(_) => r matches Err(CodeError::LangNotEnabled(l)) && l@ == "ts"@,
                Lang::KT(_) => r matches Err(CodeError::LangNotEnabled(l)) && l@ == "kt"@,
                Lang::JS(calls) => r matches Ok(s) && s@ == build_lines(service_js_lines(svc, calls@, false)),
                Lang::RS(calls) => r matches Ok(s) && s@ == build_lines(service_rs_lines(svc, calls@, false)),
                Lang::CS(calls) => r matches Ok(s) && s@ == build_lines(service_lines(svc, calls@, false)),
            }
        }),
{
    if service_name.unicode_len() == 0 {
        return Err(CodeError::ServiceNotFound(owned(service_name)));
    }
    let idx = find_service_exec(services, service_name);
    match idx {
        None => Err(CodeError::ServiceNotFound(owned(service_name))),
        Some(i) => {
            proof {
                lemma_find_service(services@, service_name@);
            }
            let svc = &services[i];
            match lang {
                Lang::TS(_) => Err(CodeError::LangNotEnabled(owned("ts"))),
                Lang::JS(calls) => Ok(generate_service_js(svc, calls, false)),
                Lang::KT(_) => Err(CodeError::LangNotEnabled(owned("kt"))),
                Lang::RS(calls) => Ok(generate_service_rs(svc, calls, false)),
                Lang::CS(calls) => Ok(generate_service_cs(svc, calls, false)),
            }
        },
    }
}

} // verus!

//! The compilation pass: walk the document's path table in order, select
//! one operation per path, and synthesize one `Probe` per selected
//! operation.  The pass is a pure function of the document; any load
//! error aborts it with the offending path, and no partial probe set is
//! produced.

use vstd::prelude::*;
use crate::casing::{snake_of, to_snake_case};
use crate::flatten::{flatten_body, spec_flatten};
use crate::model::{OpenApiFile, OpenapiPath, Request, SecurityRequirement};
use crate::paths::{parse_template, spec_pieces};
use crate::policy::{build_allowed_codes, spec_codes};
use crate::probe::{CompileError, ErrorView, Method, Probe, ProbeView};
use crate::text::{spec_trim, str_eq, trim_template};

verus! {

// ---------------------------------------------------------------------------
// Operation selection
// ---------------------------------------------------------------------------

/// The operation the compiler processes for one path: at most one verb,
/// GET taking precedence over POST and POST over PUT.
pub open spec fn spec_select(item: OpenapiPath) -> Option<(Method, Request)> {
    if item.get is Some {
        Option::Some((Method::Get, item.get->0))
    } else if item.post is Some {
        Option::Some((Method::Post, item.post->0))
    } else if item.put is Some {
        Option::Some((Method::Put, item.put->0))
    } else {
        Option::None
    }
}

fn select_operation(item: &OpenapiPath) -> (r: Option<(Method, &Request)>)
    ensures
        r matches Some(p) ==> (spec_select(*item) matches Some(sp) && p.0 == sp.0 && *p.1
            == sp.1),
        r is None ==> spec_select(*item) is None,
{
    match &item.get {
        Option::Some(op) => Some((Method::Get, op)),
        Option::None => match &item.post {
            Option::Some(op) => Some((Method::Post, op)),
            Option::None => match &item.put {
                Option::Some(op) => Some((Method::Put, op)),
                Option::None => None,
            },
        },
    }
}

// ---------------------------------------------------------------------------
// Authentication detection
// ---------------------------------------------------------------------------

/// Whether the generated request carries a bearer token: only the first
/// declared credential alternative is consulted, and only for a scheme
/// literally named `accessToken`.
pub open spec fn spec_auth(security: Option<Vec<SecurityRequirement>>) -> bool {
    match security {
        Option::None => false,
        Option::Some(alts) => alts@.len() > 0 && (exists|j: int|
            0 <= j < alts@[0].schemes@.len() && (#[trigger] alts@[0].schemes@[j].name)@
                == "accessToken"@),
    }
}

fn security_requires_token(security: &Option<Vec<SecurityRequirement>>) -> (r: bool)
    ensures
        r == spec_auth(*security),
{
    match security {
        Option::None => false,
        Option::Some(alts) => {
            if alts.len() == 0 {
                return false;
            }
            let schemes = &alts[0].schemes;
            let n: usize = schemes.len();
            let mut j: usize = 0;
            while j < n
                invariant
                    *security matches Some(sa) && sa == *alts,
                    alts@.len() > 0,
                    *schemes == alts@[0].schemes,
                    n == schemes@.len(),
                    0 <= j <= n,
                    forall|k: int| 0 <= k < j ==> (#[trigger] schemes@[k].name)@
                        != "accessToken"@,
                decreases n - j,
            {
                if str_eq(schemes[j].name.as_str(), "accessToken") {
                    assert(spec_auth(*security)) by {
                        let salts = (*security)->0;
                        assert(salts == *alts);
                        assert((salts@[0].schemes@[j as int].name)@ == "accessToken"@);
                    }
                    return true;
                }
                j = j + 1;
            }
            false
        },
    }
}

// ---------------------------------------------------------------------------
// Probe synthesis
// ---------------------------------------------------------------------------

/// The probe synthesized for one selected operation, or the error that
/// makes the document uncompilable: a missing operation identifier, a
/// dangling body or schema reference, or a non-numeric response key.
pub open spec fn spec_probe(
    path_key: String,
    item: OpenapiPath,
    m: Method,
    op: Request,
    doc: OpenApiFile,
) -> Result<ProbeView, ErrorView> {
    if op.operation_id is None {
        Err(ErrorView::MissingOperationId { path: path_key@ })
    } else {
        match spec_flatten(op.request_body, doc.body_definitions@, doc.definitions@) {
            Err(rf) => Err(ErrorView::DanglingRef { path: path_key@, reference: rf }),
            Ok(shape) => match spec_codes(op.responses@) {
                Err(k) => Err(ErrorView::NonNumericStatus { path: path_key@, key: k }),
                Ok(codes) => {
                    let tpl = spec_trim(path_key@);
                    Ok(
                        ProbeView {
                            name: snake_of(op.operation_id->0@),
                            description: item.description.deep_view(),
                            method: m,
                            template: tpl,
                            pieces: spec_pieces(tpl),
                            body_shape: shape,
                            requires_auth: spec_auth(op.security),
                            allowed_codes: codes,
                        },
                    )
                },
            },
        }
    }
}

fn clone_opt_string(o: &Option<String>) -> (r: Option<String>)
    ensures
        r.deep_view() == o.deep_view(),
{
    match o {
        Option::Some(s) => Some(s.clone()),
        Option::None => None,
    }
}

/// Synthesize the probe of one selected operation.
pub fn make_probe(
    path_key: &String,
    item: &OpenapiPath,
    m: Method,
    op: &Request,
    doc: &OpenApiFile,
) -> (r: Result<Probe, CompileError>)
    ensures
        r matches Ok(p) ==> (spec_probe(*path_key, *item, m, *op, *doc) matches Ok(v) && p@
            == v),
        r matches Err(e) ==> (spec_probe(*path_key, *item, m, *op, *doc) matches Err(v) && e@
            == v),
{
    let name = match &op.operation_id {
        Option::None => {
            return Err(CompileError::MissingOperationId { path: path_key.clone() });
        },
        Option::Some(id) => to_snake_case(id.as_str()),
    };
    let body_shape = match flatten_body(&op.request_body, &doc.body_definitions, &doc.definitions) {
        Ok(s) => s,
        Err(rf) => {
            return Err(CompileError::DanglingRef { path: path_key.clone(), reference: rf });
        },
    };
    let allowed_codes = match build_allowed_codes(&op.responses) {
        Ok(c) => c,
        Err(k) => {
            return Err(CompileError::NonNumericStatus { path: path_key.clone(), key: k });
        },
    };
    let template = trim_template(path_key.as_str());
    let pieces = parse_template(template.as_str());
    let requires_auth = security_requires_token(&op.security);
    let description = clone_opt_string(&item.description);
    Ok(
        Probe {
            name,
            description,
            method: m,
            template,
            pieces,
            body_shape,
            requires_auth,
            allowed_codes,
        },
    )
}

// ---------------------------------------------------------------------------
// The whole pass
// ---------------------------------------------------------------------------

/// The probes of the document's path table from entry `i` on, or the
/// first error, in path-table order.
pub open spec fn spec_compile_from(doc: OpenApiFile, i: int) -> Result<Seq<ProbeView>, ErrorView>
    decreases doc.paths@.len() - i,
{
    if i < 0 || i >= doc.paths@.len() {
        Ok(Seq::empty())
    } else {
        let path_key = doc.paths@[i].0;
        let item = doc.paths@[i].1;
        match spec_select(item) {
            Option::None => spec_compile_from(doc, i + 1),
            Option::Some(sel) => match spec_probe(path_key, item, sel.0, sel.1, doc) {
                Err(e) => Err(e),
                Ok(pv) => match spec_compile_from(doc, i + 1) {
                    Err(e) => Err(e),
                    Ok(rest) => Ok(seq![pv] + rest),
                },
            },
        }
    }
}

/// The full compilation of a document: one probe per selected operation,
/// in path-table order, or the first fatal error.
pub open spec fn spec_compile(doc: OpenApiFile) -> Result<Seq<ProbeView>, ErrorView> {
    spec_compile_from(doc, 0)
}

spec fn prepend_probes(acc: Seq<ProbeView>, r: Result<Seq<ProbeView>, ErrorView>) -> Result<
    Seq<ProbeView>,
    ErrorView,
> {
    match r {
        Ok(rest) => Ok(acc + rest),
        Err(e) => Err(e),
    }
}

/// Compile a normalized document into its probe set.  The result is a
/// pure function of the document: recompiling the same document yields
/// the same probes.  On error no partial probe set is produced.
pub fn compile(doc: &OpenApiFile) -> (r: Result<Vec<Probe>, CompileError>)
    ensures
        r matches Ok(ps) ==> (spec_compile(*doc) matches Ok(vs) && ps.deep_view() == vs),
        r matches Err(e) ==> (spec_compile(*doc) matches Err(v) && e@ == v),
{
    let n: usize = doc.paths.len();
    let mut probes: Vec<Probe> = Vec::new();
    let mut i: usize = 0;
    while i < n
        invariant
            n == doc.paths@.len(),
            0 <= i <= n,
            prepend_probes(probes.deep_view(), spec_compile_from(*doc, i as int))
                == spec_compile(*doc),
        decreases n - i,
    {
        let entry = &doc.paths[i];
        match select_operation(&entry.1) {
            Option::None => {},
            Option::Some(sel) => {
                match make_probe(&entry.0, &entry.1, sel.0, sel.1, doc) {
                    Err(e) => {
                        return Err(e);
                    },
                    Ok(p) => {
                        let ghost prev = probes.deep_view();
                        let ghost pv = p@;
                        probes.push(p);
                        proof {
                            assert(probes.deep_view() =~= prev.push(pv));
                            if let Ok(rest) = spec_compile_from(*doc, i as int + 1) {
                                assert(prev + (seq![pv] + rest) =~= probes.deep_view() + rest);
                            }
                        }
                    },
                }
            },
        }
        i = i + 1;
    }
    assert(probes.deep_view() =~= probes.deep_view() + Seq::<ProbeView>::empty());
    Ok(probes)
}

// ---------------------------------------------------------------------------
// Determinism of recompilation
// ---------------------------------------------------------------------------

/// The probe names of a compiled probe set, in order.
pub open spec fn probe_names(ps: Seq<ProbeView>) -> Seq<Seq<char>> {
    ps.map_values(|p: ProbeView| p.name)
}

/// The allowed-outcome sets of a compiled probe set, in order.
pub open spec fn probe_outcomes(ps: Seq<ProbeView>) -> Seq<Seq<u16>> {
    ps.map_values(|p: ProbeView| p.allowed_codes)
}

/// Compilation is deterministic: two successful compilations of the same
/// document yield identical probe sets, and in particular identical name
/// and allowed-outcome sequences.
pub proof fn lemma_recompile_deterministic(doc: &OpenApiFile, ps1: &Vec<Probe>, ps2: &Vec<Probe>)
    requires
        spec_compile(*doc) == Ok::<Seq<ProbeView>, ErrorView>(ps1.deep_view()),
        spec_compile(*doc) == Ok::<Seq<ProbeView>, ErrorView>(ps2.deep_view()),
    ensures
        ps1.deep_view() == ps2.deep_view(),
        probe_names(ps1.deep_view()) == probe_names(ps2.deep_view()),
        probe_outcomes(ps1.deep_view()) == probe_outcomes(ps2.deep_view()),
{
}

} // verus!

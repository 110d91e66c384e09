use rdma_session::structure::{
    driver_owns_cm, inspect, is_cm_child, is_test_only, violations, EffectReceiver, Findings,
    SyntaxFact,
};
use syn::punctuated::Punctuated;
use syn::visit::{self, Visit};
use syn::{
    Attribute, Expr, ExprCall, ExprMethodCall, GenericArgument, ItemEnum, ItemImpl, ItemMod,
    ItemStruct, ItemType, ItemUse, Meta, Path, PathArguments, PathSegment, Type, UseTree,
};

fn cfg_is_exact_test(attribute: &Attribute) -> bool {
    let Meta::List(list) = &attribute.meta else {
        return false;
    };
    if !list.path.is_ident("cfg") {
        return false;
    }
    let predicates = list
        .parse_args_with(Punctuated::<Meta, syn::token::Comma>::parse_terminated)
        .expect("cfg attribute must parse");
    predicates.len() == 1
        && matches!(predicates.first(), Some(Meta::Path(path)) if path.is_ident("test"))
}

fn path_segments(path: &Path) -> Vec<String> {
    path.segments.iter().map(|segment| segment.ident.to_string()).collect()
}

fn arguments_mention(segment: &PathSegment, expected: &str) -> bool {
    match &segment.arguments {
        PathArguments::AngleBracketed(arguments) => arguments.args.iter().any(|argument| {
            matches!(
                argument,
                GenericArgument::Type(inner) if type_mentions(inner, expected)
            )
        }),
        _ => false,
    }
}

fn type_mentions(type_: &Type, expected: &str) -> bool {
    match type_ {
        Type::Path(path) => path
            .path
            .segments
            .iter()
            .any(|segment| segment.ident == expected || arguments_mention(segment, expected)),
        Type::Reference(reference) => type_mentions(&reference.elem, expected),
        Type::Paren(paren) => type_mentions(&paren.elem, expected),
        _ => false,
    }
}

struct Facts(Vec<SyntaxFact>);

impl Facts {
    fn imports(&mut self, tree: &UseTree, prefix: &mut Vec<String>) {
        match tree {
            UseTree::Path(path) => {
                prefix.push(path.ident.to_string());
                self.imports(&path.tree, prefix);
                prefix.pop();
            }
            UseTree::Name(name) => {
                prefix.push(name.ident.to_string());
                self.0.push(SyntaxFact::Import { segments: prefix.clone(), glob: false });
                prefix.pop();
            }
            UseTree::Rename(rename) => {
                prefix.push(rename.ident.to_string());
                self.0.push(SyntaxFact::Import { segments: prefix.clone(), glob: false });
                prefix.pop();
            }
            UseTree::Glob(_) => {
                self.0.push(SyntaxFact::Import { segments: prefix.clone(), glob: true });
            }
            UseTree::Group(group) => {
                for item in &group.items {
                    self.imports(item, prefix);
                }
            }
        }
    }
}

impl<'ast> Visit<'ast> for Facts {
    fn visit_item_mod(&mut self, module: &'ast ItemMod) {
        if !module.attrs.iter().any(cfg_is_exact_test) {
            visit::visit_item_mod(self, module);
        }
    }

    fn visit_path(&mut self, path: &'ast Path) {
        self.0.push(SyntaxFact::Path(path_segments(path)));
        visit::visit_path(self, path);
    }

    fn visit_item_use(&mut self, item: &'ast ItemUse) {
        self.imports(&item.tree, &mut Vec::new());
        visit::visit_item_use(self, item);
    }

    fn visit_item_struct(&mut self, item: &'ast ItemStruct) {
        self.0.push(SyntaxFact::Definition(item.ident.to_string()));
        visit::visit_item_struct(self, item);
    }

    fn visit_item_enum(&mut self, item: &'ast ItemEnum) {
        self.0.push(SyntaxFact::Definition(item.ident.to_string()));
        visit::visit_item_enum(self, item);
    }

    fn visit_item_type(&mut self, item: &'ast ItemType) {
        self.0.push(SyntaxFact::Definition(item.ident.to_string()));
        visit::visit_item_type(self, item);
    }

    fn visit_item_impl(&mut self, item: &'ast ItemImpl) {
        let of_trait = item
            .trait_
            .as_ref()
            .and_then(|(_, path, _)| path.segments.last().map(|last| last.ident.to_string()));
        let to_manager = type_mentions(&item.self_ty, "SessionManager")
            || item.trait_.as_ref().is_some_and(|(_, path, _)| {
                path.segments.iter().any(|segment| arguments_mention(segment, "SessionManager"))
            })
            || item.items.iter().any(|inner| {
                matches!(
                    inner,
                    syn::ImplItem::Type(target)
                        if target.ident == "Target" && type_mentions(&target.ty, "SessionManager")
                )
            });
        self.0.push(SyntaxFact::Implementation {
            of_cm_state: type_mentions(&item.self_ty, "CmState"),
            of_trait,
            to_manager,
        });
        visit::visit_item_impl(self, item);
    }

    fn visit_expr_call(&mut self, call: &'ast ExprCall) {
        if let Expr::Path(path) = &*call.func {
            self.0.push(SyntaxFact::Call(path_segments(&path.path)));
        }
        visit::visit_expr_call(self, call);
    }

    fn visit_expr_method_call(&mut self, call: &'ast ExprMethodCall) {
        let receiver = match &*call.receiver {
            Expr::Path(path) => EffectReceiver::Path(
                path.path.segments.last().map(|last| last.ident.to_string()).unwrap_or_default(),
            ),
            Expr::MethodCall(inner) => EffectReceiver::Method(inner.method.to_string()),
            _ => EffectReceiver::Other,
        };
        self.0.push(SyntaxFact::Method { name: call.method.to_string(), receiver });
        visit::visit_expr_method_call(self, call);
    }
}

fn findings(source: &str) -> Findings {
    let file = syn::parse_file(source).unwrap();
    let mut facts = Facts(Vec::new());
    facts.visit_file(&file);
    inspect(&facts.0)
}

#[test]
fn recursive_walker_and_syntax_guards_reject_nested_bypasses() {
    let source = r#"
        use crate::v2::engine::session::cm::{event::Snapshot, shutdown as sibling};
        fn hidden() {
            let _text = "tokio::spawn(async {})";
            // WorkRequestPoster::destroy_qp is documentation, not a call.
            std::thread::scope(|_| {});
            tokio::task::spawn_local(async {});
            tokio::task::JoinSet::new().spawn(async {});
            join_set.spawn_on(async {}, handle);
            join_set.spawn_local_on(async {}, local_set);
            join_set.spawn_blocking_on(|| {}, handle);
            executor.spawn_obj(future);
            executor.spawn_local_obj(future);
            WorkRequestPoster::destroy_qp(poster, authority);
        }
    "#;
    assert!(
        !is_test_only(&"new/child/tests.rs".to_string()),
        "an arbitrary production file named tests.rs must not bypass guards"
    );

    let findings_of_source = findings(source);
    assert!(
        findings_of_source.hidden_work.iter().any(|finding| finding.contains("spawn_local"))
    );
    assert!(findings_of_source.hidden_work.iter().any(|finding| finding == ".spawn"));
    for method in [
        "std::thread::scope",
        ".spawn_on",
        ".spawn_local_on",
        ".spawn_blocking_on",
        ".spawn_obj",
        ".spawn_local_obj",
    ] {
        assert!(
            findings_of_source.hidden_work.iter().any(|finding| finding == method),
            "missing hidden-work finding for {method}"
        );
    }
    assert!(
        findings_of_source.qp_authority_calls.iter().any(|finding| finding == "destroy_qp")
    );
    assert!(
        findings_of_source.sibling_references.iter().any(|finding| finding.contains("event"))
    );
    assert!(
        findings_of_source.sibling_references.iter().any(|finding| finding.contains("shutdown"))
    );

    let comment_findings = findings(
        r#"
            // tokio::spawn(async {}) and WorkRequestPoster::destroy_qp are documentation.
            const EXAMPLE: &str = "use crate::v2::engine::session::cm::event;";
        "#,
    );
    assert!(
        comment_findings.hidden_work.is_empty()
            && comment_findings.qp_authority_calls.is_empty()
            && comment_findings.sibling_references.is_empty()
            && comment_findings.cm_driver_references.is_empty(),
        "comments and strings must not create findings"
    );
}

#[test]
fn cfg_test_detection_requires_an_actual_gated_module() {
    let has_gated_tests = |source: &str| {
        syn::parse_file(source).unwrap().items.iter().any(|item| {
            matches!(
                item,
                syn::Item::Mod(module)
                    if module.ident == "tests" && module.attrs.iter().any(cfg_is_exact_test)
            )
        })
    };
    assert!(has_gated_tests("#[cfg(test)] mod tests;"));
    assert!(!has_gated_tests("mod tests;"));
    assert!(!has_gated_tests("#[cfg(any(test, feature = \"test-hooks\"))] mod tests;"));
    assert!(!has_gated_tests("#[cfg(not(test))] mod tests;"));
}

#[test]
fn sensitive_calls_stay_with_their_owners() {
    let commits = findings("fn f() { io_effects.publish(); manager.apply_io_effects(effects).publish(); }");
    assert_eq!(commits.effect_commit_calls, vec!["publish", "publish", "apply_io_effects"]);
    let drain = "src/v2/engine/session/drain.rs".to_string();
    assert!(!violations(&drain, false, &commits).effect_commits);
    let progress = "src/v2/engine/session/progress.rs".to_string();
    assert!(violations(&progress, false, &commits).effect_commits);

    let destroys = findings("fn f() { poster.destroy_qp(); ensure_qp_destroyed(token); }");
    let owner = "src/v2/engine/session/cm/retirement.rs".to_string();
    assert!(!violations(&owner, true, &destroys).qp_authority);
    assert!(violations(&drain, false, &destroys).qp_authority);
    assert_eq!(destroys.qp_authority_calls, vec!["destroy_qp", "ensure_qp_destroyed"]);
}

#[test]
fn owners_are_not_handed_out_whole() {
    let adapter = findings(
        "impl Deref for Handle { type Target = SessionManager; fn deref(&self) -> &SessionManager { &self.0 } }",
    );
    assert_eq!(adapter.broad_owner_adapters, vec!["Deref"]);
    let facade = findings("impl CmState { fn extra(&self) {} } struct CmState;");
    assert_eq!(facade.facade_impls, 1);
    assert!(violations(&"src/cm/event.rs".to_string(), true, &facade).facade_impls);
    assert!(!violations(&"src/cm/mod.rs".to_string(), false, &facade).facade_impls);
    assert!(facade.cm_driver_references.contains(&"CmState".to_string()));
    let wildcard = findings("use super::*;");
    assert_eq!(wildcard.sibling_references, vec!["wildcard parent import"]);
    assert!(is_cm_child(&"retirement".to_string()));
    assert!(!is_cm_child(&"tests".to_string()));
}

#[test]
fn definitions_and_trait_arguments_are_seen_in_every_form() {
    for source in ["struct CmState;", "enum CmState { A }", "type CmState = u8;"] {
        assert_eq!(findings(source).cm_driver_references, vec!["CmState".to_string()]);
    }
    let generic = findings("impl AsRef<SessionManager> for Owner {}");
    assert_eq!(generic.broad_owner_adapters, vec!["AsRef".to_string()]);
    let gated = findings("#[cfg(test)] mod tests { fn f() { tokio::spawn(g()); } }");
    assert!(gated.hidden_work.is_empty());
    let open = findings("#[cfg(any(test, feature))] mod tests { fn f() { tokio::spawn(g()); } }");
    assert!(!open.hidden_work.is_empty());
}

#[test]
fn driver_sources_hold_nothing_of_the_connection_manager() {
    assert!(driver_owns_cm(&findings("use x::y; fn f() { crate::v2::engine::session::cm::g(); }")));
    assert!(driver_owns_cm(&findings("struct CmState;")));
    assert!(!driver_owns_cm(&findings("fn f() { crate::v2::engine::session::g(); }")));
}

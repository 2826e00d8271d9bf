use deno_bundler::data_channel::{create_client_server_channel, ChannelError, Polled};
use deno_bundler::transpile::{compile, minify_module, need_transpile};
use deno_bundler::bundle::{BundleOptionsBuilder, BundleType};
use deno_bundler::config::{get_ts_config, ConfigType, TranspilerOptions, ImportsNotUsedAsValues};
use deno_bundler::graph::MediaKind;
use deno_bundler::loader::swc_err_to_diagnostic;
use deno_bundler::error::{LineAndColumnDisplay, SourceRange};
use deno_bundler::minify::{MinifyOptions, MinifyPlan};

#[test]
fn request_and_response_cross_once() {
    let (mut client, mut server) = create_client_server_channel::<u32, String>();
    assert_eq!(client.try_recv(), Polled::Pending);
    assert_eq!(client.send(7), Ok(()));
    assert_eq!(client.send(8), Err(ChannelError::ClientTxTaken));
    let mut rx = server.take_rx().unwrap();
    assert_eq!(rx.try_recv(), Ok(7));
    assert_eq!(server.take_rx().unwrap_err(), ChannelError::ServerRxTaken);
    assert_eq!(server.send("done".to_string()), Ok(()));
    assert_eq!(server.send("again".to_string()), Err(ChannelError::ServerTxTaken));
    assert_eq!(client.try_recv(), Polled::Ready("done".to_string()));
}

#[test]
fn a_side_that_is_gone_fails_the_other() {
    let (mut client, server) = create_client_server_channel::<u32, u32>();
    drop(server);
    assert_eq!(client.send(1), Err(ChannelError::SendRequestFailed));
    assert_eq!(client.try_recv(), Polled::Failed(ChannelError::ReceiveResponseFailed));

    let (client, mut server) = create_client_server_channel::<u32, u32>();
    drop(client);
    assert_eq!(server.send(1), Err(ChannelError::SendResponseFailed));

    let (_client, mut server) = create_client_server_channel::<u32, u32>();
    let tx = server.take_tx().unwrap();
    assert_eq!(tx.send(3), Ok(()));
    assert_eq!(server.take_tx().unwrap_err(), ChannelError::ServerTxTaken);
    assert_eq!(server.send(4), Err(ChannelError::ServerTxTaken));
}

#[test]
fn channel_errors_have_their_messages() {
    assert_eq!(ChannelError::ClientTxTaken.message(), "client tx already taken");
    assert_eq!(ChannelError::ClientRxTaken.message(), "Error: client rx already taken");
    assert_eq!(ChannelError::ServerTxTaken.message(), "server tx already taken");
    assert_eq!(ChannelError::ServerRxTaken.message(), "server rx already taken");
    assert_eq!(ChannelError::SendRequestFailed.message(), "Error: failed to send request");
    assert_eq!(ChannelError::SendResponseFailed.message(), "Error: failed to send response");
    assert_eq!(ChannelError::ReceiveResponseFailed.message(), "Error: failed to receive response");
}

#[test]
fn typed_scripts_and_jsx_are_transpiled() {
    for media_type in [MediaKind::JavaScript, MediaKind::Mjs, MediaKind::Cjs, MediaKind::Json] {
        assert!(!need_transpile(media_type));
    }
    for media_type in [
        MediaKind::Jsx,
        MediaKind::TypeScript,
        MediaKind::Mts,
        MediaKind::Cts,
        MediaKind::Dts,
        MediaKind::Dmts,
        MediaKind::Dcts,
        MediaKind::Tsx,
    ] {
        assert!(need_transpile(media_type));
    }
    for media_type in
        [MediaKind::Wasm, MediaKind::TsBuildInfo, MediaKind::SourceMap, MediaKind::Unknown]
    {
        assert!(!need_transpile(media_type));
    }
}

#[test]
fn single_modules_are_compiled_without_source_maps() {
    let plan = compile(false);
    assert_eq!(plan.post_process, None);
    assert_eq!(
        plan.options,
        TranspilerOptions {
            emit_metadata: false,
            imports_not_used_as_values: ImportsNotUsedAsValues::Remove,
            inline_source_map: false,
            inline_sources: true,
            source_map: false,
            jsx_automatic: false,
            jsx_development: false,
            jsx_factory: "React.createElement".to_string(),
            jsx_fragment_factory: "React.Fragment".to_string(),
            jsx_import_source: None,
            transform_jsx: true,
            var_decl_imports: false,
        }
    );
    let minified = compile(true);
    assert_eq!(minified.post_process, Some(minify_module()));
    assert_eq!(
        minify_module(),
        MinifyPlan {
            options: MinifyOptions { compress: true, mangle: true, mangle_top_level: true },
            run_fixer: false
        }
    );
    assert!(TranspilerOptions::default().inline_source_map);
}

#[test]
fn builder_fills_in_the_defaults() {
    let options = BundleOptionsBuilder::default().bundle_type(BundleType::MainModule).build().unwrap();
    assert_eq!(options.bundle_type, BundleType::MainModule);
    assert_eq!(options.ts_config, get_ts_config(ConfigType::Bundle).unwrap());
    assert!(!options.emit_ignore_directives);
    assert!(options.minify);
    let emit = get_ts_config(ConfigType::Emit).unwrap();
    let options = BundleOptionsBuilder::default()
        .ts_config(emit.clone())
        .emit_ignore_directives(true)
        .minify(false)
        .build()
        .unwrap();
    assert_eq!(options.bundle_type, BundleType::Module);
    assert_eq!(options.ts_config, emit);
    assert!(options.emit_ignore_directives);
    assert!(!options.minify);
}

#[test]
fn diagnostic_column_counts_from_one() {
    let diagnostic = swc_err_to_diagnostic(
        "file:///a.ts",
        SourceRange { start: 4, end: 9 },
        2,
        0,
        "Unexpected token".to_string(),
    );
    assert_eq!(diagnostic.specifier, "file:///a.ts");
    assert_eq!(diagnostic.range, SourceRange { start: 4, end: 9 });
    assert_eq!(diagnostic.display_position, LineAndColumnDisplay { line_number: 2, column_number: 1 });
    assert_eq!(diagnostic.kind, "Unexpected token");
    assert_eq!(diagnostic.message(), "Unexpected token at file:///a.ts:2:1");
}

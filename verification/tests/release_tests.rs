use launcher::component::{CoD4xAssetError, LauncherAssetError, Mss32AssetError, VersionError};
use launcher::miles32::Miles32LoadError;
use launcher::security_info::SecurityDescriptorError;
use launcher::github::{
    find_asset, parse_hashes, parse_release_information, resolve_artifact, AssetInformation,
    HashesError, ParseError, ReleaseInformation, ResolveError,
};

fn asset(name: &str) -> AssetInformation {
    AssetInformation {
        name: name.to_string(),
        url: format!("https://downloads.example/{name}"),
    }
}

fn release_with(names: &[&str]) -> ReleaseInformation {
    ReleaseInformation {
        tag_name: "21.2".to_string(),
        assets: names.iter().map(|n| asset(n)).collect(),
    }
}

#[test]
fn release_json_yields_tag_and_assets() {
    let body = "{\"tag_name\":\"21.2\",\"assets\":[\
        {\"name\":\"cod4x_21366.dll\",\"browser_download_url\":\"https://x/cod4x_21366.dll\"},\
        {\"name\":\"hashes.txt\",\"browser_download_url\":\"https://x/hashes.txt\"}]}";
    let release = parse_release_information(body).expect("well-formed release body");
    assert_eq!(release.tag_name, "21.2");
    assert_eq!(release.assets.len(), 2);
    assert_eq!(release.assets[0].name, "cod4x_21366.dll");
    assert_eq!(release.assets[0].url, "https://x/cod4x_21366.dll");
    assert_eq!(release.assets[1].name, "hashes.txt");
}

#[test]
fn release_json_errors_name_what_is_missing() {
    assert!(matches!(
        parse_release_information("this is not json"),
        Err(ParseError::InvalidResponse)
    ));
    assert!(matches!(parse_release_information("{}"), Err(ParseError::TagName)));
    assert!(matches!(
        parse_release_information("{\"tag_name\":7,\"assets\":[]}"),
        Err(ParseError::TagName)
    ));
    assert!(matches!(
        parse_release_information("{\"tag_name\":\"1.0\"}"),
        Err(ParseError::ReleaseAssets)
    ));
    assert!(matches!(
        parse_release_information("{\"tag_name\":\"1.0\",\"assets\":[{\"name\":\"a\"}]}"),
        Err(ParseError::ReleaseAssets)
    ));
}

#[test]
fn find_asset_takes_the_first_match() {
    let release = release_with(&["hashes.txt", "cod4x_21366.dll", "cod4x_21999.dll"]);
    let found = find_asset(&release, "^cod4x_([0-9]+).dll").expect("a module asset matches");
    assert_eq!(found.name, "cod4x_21366.dll");
    let exact = find_asset(&release, "^hashes.txt$").expect("the manifest asset matches");
    assert_eq!(exact.name, "hashes.txt");
}

#[test]
fn find_asset_without_match_or_pattern_yields_nothing() {
    let release = release_with(&["hashes.txt"]);
    assert!(find_asset(&release, "^cod4x_([0-9]+).dll").is_none());
    // A pattern that does not compile finds nothing rather than failing.
    assert!(find_asset(&release, "(").is_none());
}

#[test]
fn resolve_artifact_pairs_asset_with_digest() {
    let release = release_with(&["hashes.txt", "launcher.dll"]);
    let manifest = parse_hashes("abc123 launcher.dll\n");
    let (found, digest) =
        resolve_artifact(&release, "launcher.dll", &manifest).expect("asset and digest resolve");
    assert_eq!(found.name, "launcher.dll");
    assert_eq!(digest, "abc123");
}

#[test]
fn resolve_artifact_reports_what_is_missing() {
    let release = release_with(&["hashes.txt", "launcher.dll"]);
    let empty = parse_hashes("");
    assert!(matches!(
        resolve_artifact(&release, "mss32.dll", &empty),
        Err(ResolveError::AssetNotFound)
    ));
    assert!(matches!(
        resolve_artifact(&release, "launcher.dll", &empty),
        Err(ResolveError::HashNotFound)
    ));
}

#[test]
fn error_messages_name_their_component() {
    assert_eq!(ParseError::FetchError.message(), "Failed to fetch latest release information");
    assert_eq!(ParseError::InvalidResponse.message(), "Invalid JSON response from GitHub API");
    assert_eq!(ParseError::TagName.message(), "Couldn't get tag name");
    assert_eq!(ParseError::ReleaseAssets.message(), "Couldn't get release assets");
    assert_eq!(HashesError::AssetNotFound.message(), "Couldn't find hashes.txt asset");
    assert_eq!(HashesError::FetchError.message(), "Failed to fetch hashes.txt");
    assert_eq!(CoD4xAssetError::IntegrityFailure.message(), "CoD4x asset integrity verification failed");
    assert_eq!(LauncherAssetError::NotFound.message(), "Couldn't find launcher asset");
    assert_eq!(Mss32AssetError::WriteFailure.message(), "Failed to write Miles Loader");
}

#[test]
fn platform_error_messages_carry_their_detail() {
    assert_eq!(VersionError::InvalidTag.message(), "Couldn't parse release tag as a version");
    assert_eq!(
        SecurityDescriptorError::GetError(5).message(),
        "Failed to get security descriptor: 5"
    );
    assert_eq!(
        SecurityDescriptorError::SetError(1307).message(),
        "Failed to set security descriptor: 1307"
    );
    assert_eq!(Miles32LoadError::ModuleNotFound.message(), "Miles32 DLL not found");
    assert_eq!(
        Miles32LoadError::MissingProcedure("AIL_startup".to_string()).message(),
        "Missing Miles32 procedure 'AIL_startup'"
    );
}

#[test]
fn resolve_errors_map_into_component_errors() {
    assert!(matches!(
        CoD4xAssetError::from_resolve(ResolveError::AssetNotFound),
        CoD4xAssetError::NotFound
    ));
    assert!(matches!(
        LauncherAssetError::from_resolve(ResolveError::HashNotFound),
        LauncherAssetError::HashNotFound
    ));
    assert!(matches!(
        Mss32AssetError::from_resolve(ResolveError::AssetNotFound),
        Mss32AssetError::NotFound
    ));
}

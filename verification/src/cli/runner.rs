//! The routing of a subcommand path, as the command line parses it, to the
//! action the tool takes.
use crate::text::str_equals;
use vstd::prelude::*;

verus! {

/// What a subcommand path asks the tool to do.
#[derive(Debug, Clone, Copy, PartialEq, Eq, Structural)]
pub enum Route {
    GlueJobRunsList,
    GlueJobList,
    GlueJobBookmark,
    GlueDatabasesList,
    GlueTableList,
    RdsInstances,
    S3BucketList,
    S3ObjectsList,
    S3ObjectsVersions,
    DynamoDbTablesList,
    DynamoDbTableDescribe,
    RedshiftClusterDescribe,
    RedshiftEventsDescribe,
    ResourceExplorerSearch,
    CostExplorerGetCostAndUsage,
    DocDbDescribeClusters,
    DocDbDescribeCluster,
    BedrockListFoundationalModels,
    BedrockInvokePrompt,
    SsoOidcConfigure,
    /// A subcommand the group does not know: reported as unknown input.
    UnknownInput,
    /// No known service: reported as faulty input.
    FaultyInput,
    /// A subcommand the command definition cannot produce: the tool panics.
    Unreachable,
    /// A group given without its subcommand: the tool panics.
    MissingSubcommand,
}

/// The subcommand at depth `i` of `path` is `name`.
pub open spec fn is_at(path: Seq<Seq<char>>, i: int, name: Seq<char>) -> bool {
    i < path.len() && path[i] == name
}

/// Routing of a group whose subcommands are a single known `leaf`.
pub open spec fn leaf_route(path: Seq<Seq<char>>, i: int, leaf: Seq<char>, r: Route) -> Route {
    if path.len() <= i {
        Route::MissingSubcommand
    } else if path[i] == leaf {
        r
    } else {
        Route::UnknownInput
    }
}

/// Routing of a group with two known leaves.
pub open spec fn leaf2_route(
    path: Seq<Seq<char>>,
    i: int,
    leaf1: Seq<char>,
    r1: Route,
    leaf2: Seq<char>,
    r2: Route,
) -> Route {
    if path.len() <= i {
        Route::MissingSubcommand
    } else if path[i] == leaf1 {
        r1
    } else if path[i] == leaf2 {
        r2
    } else {
        Route::UnknownInput
    }
}

/// The route of a subcommand path (the names of the subcommands from the top
/// down).
pub open spec fn route_spec(path: Seq<Seq<char>>) -> Route {
    if path.len() == 0 {
        Route::FaultyInput
    } else if path[0] == "glue"@ {
        if path.len() <= 1 {
            Route::MissingSubcommand
        } else if path[1] == "job"@ {
            if path.len() <= 2 {
                Route::MissingSubcommand
            } else if path[2] == "runs"@ {
                leaf_route(path, 3, "list"@, Route::GlueJobRunsList)
            } else if path[2] == "list"@ {
                Route::GlueJobList
            } else if path[2] == "bookmark"@ {
                Route::GlueJobBookmark
            } else {
                Route::Unreachable
            }
        } else if path[1] == "databases"@ {
            leaf_route(path, 2, "list"@, Route::GlueDatabasesList)
        } else if path[1] == "table"@ {
            leaf_route(path, 2, "list"@, Route::GlueTableList)
        } else {
            Route::Unreachable
        }
    } else if path[0] == "rds"@ {
        leaf_route(path, 1, "instances"@, Route::RdsInstances)
    } else if path[0] == "s3"@ {
        if path.len() <= 1 {
            Route::MissingSubcommand
        } else if path[1] == "bucket"@ {
            leaf_route(path, 2, "list"@, Route::S3BucketList)
        } else if path[1] == "objects"@ {
            leaf2_route(path, 2, "list"@, Route::S3ObjectsList, "versions"@, Route::S3ObjectsVersions)
        } else {
            Route::UnknownInput
        }
    } else if path[0] == "dynamodb"@ {
        if path.len() <= 1 {
            Route::MissingSubcommand
        } else if path[1] == "tables"@ {
            leaf_route(path, 2, "list"@, Route::DynamoDbTablesList)
        } else if path[1] == "table"@ {
            leaf_route(path, 2, "describe"@, Route::DynamoDbTableDescribe)
        } else {
            Route::UnknownInput
        }
    } else if path[0] == "redshift"@ {
        if path.len() <= 1 {
            Route::MissingSubcommand
        } else if path[1] == "cluster"@ {
            leaf_route(path, 2, "describe"@, Route::RedshiftClusterDescribe)
        } else if path[1] == "events"@ {
            leaf_route(path, 2, "describe"@, Route::RedshiftEventsDescribe)
        } else {
            Route::UnknownInput
        }
    } else if path[0] == "resource-explorer"@ {
        leaf_route(path, 1, "search"@, Route::ResourceExplorerSearch)
    } else if path[0] == "cost-explorer"@ {
        leaf_route(path, 1, "get-cost-and-usage"@, Route::CostExplorerGetCostAndUsage)
    } else if path[0] == "docdb"@ {
        leaf2_route(
            path,
            1,
            "describe-clusters"@,
            Route::DocDbDescribeClusters,
            "describe-cluster"@,
            Route::DocDbDescribeCluster,
        )
    } else if path[0] == "bedrock"@ {
        if path.len() <= 1 {
            Route::MissingSubcommand
        } else if path[1] == "mgmt"@ {
            leaf_route(path, 2, "list-foundational-models"@, Route::BedrockListFoundationalModels)
        } else if path[1] == "runtime"@ {
            leaf_route(path, 2, "invoke-prompt"@, Route::BedrockInvokePrompt)
        } else {
            Route::UnknownInput
        }
    } else if path[0] == "sso"@ {
        if path.len() <= 1 {
            Route::MissingSubcommand
        } else if path[1] == "oidc"@ {
            leaf_route(path, 2, "configure"@, Route::SsoOidcConfigure)
        } else {
            Route::UnknownInput
        }
    } else {
        Route::FaultyInput
    }
}

/// The names of a path of subcommands.
pub open spec fn path_view(path: Seq<String>) -> Seq<Seq<char>> {
    path.map_values(|s: String| s@)
}

fn name_is(path: &Vec<String>, i: usize, name: &str) -> (b: bool)
    requires
        i < path@.len(),
    ensures
        b == (path@[i as int]@ == name@),
{
    str_equals(path[i].as_str(), name)
}

fn leaf(path: &Vec<String>, i: usize, name: &str, r: Route) -> (out: Route)
    ensures
        out == leaf_route(path_view(path@), i as int, name@, r),
{
    if path.len() <= i {
        Route::MissingSubcommand
    } else if name_is(path, i, name) {
        r
    } else {
        Route::UnknownInput
    }
}

fn leaf2(path: &Vec<String>, i: usize, name1: &str, r1: Route, name2: &str, r2: Route) -> (out:
    Route)
    ensures
        out == leaf2_route(path_view(path@), i as int, name1@, r1, name2@, r2),
{
    if path.len() <= i {
        Route::MissingSubcommand
    } else if name_is(path, i, name1) {
        r1
    } else if name_is(path, i, name2) {
        r2
    } else {
        Route::UnknownInput
    }
}

/// The route of the subcommand path `path`.
pub fn route(path: &Vec<String>) -> (r: Route)
    ensures
        r == route_spec(path_view(path@)),
{
    let ghost p = path_view(path@);
    if path.len() == 0 {
        Route::FaultyInput
    } else if name_is(path, 0, "glue") {
        if path.len() <= 1 {
            Route::MissingSubcommand
        } else if name_is(path, 1, "job") {
            if path.len() <= 2 {
                Route::MissingSubcommand
            } else if name_is(path, 2, "runs") {
                leaf(path, 3, "list", Route::GlueJobRunsList)
            } else if name_is(path, 2, "list") {
                Route::GlueJobList
            } else if name_is(path, 2, "bookmark") {
                Route::GlueJobBookmark
            } else {
                Route::Unreachable
            }
        } else if name_is(path, 1, "databases") {
            leaf(path, 2, "list", Route::GlueDatabasesList)
        } else if name_is(path, 1, "table") {
            leaf(path, 2, "list", Route::GlueTableList)
        } else {
            Route::Unreachable
        }
    } else if name_is(path, 0, "rds") {
        leaf(path, 1, "instances", Route::RdsInstances)
    } else if name_is(path, 0, "s3") {
        if path.len() <= 1 {
            Route::MissingSubcommand
        } else if name_is(path, 1, "bucket") {
            leaf(path, 2, "list", Route::S3BucketList)
        } else if name_is(path, 1, "objects") {
            leaf2(path, 2, "list", Route::S3ObjectsList, "versions", Route::S3ObjectsVersions)
        } else {
            Route::UnknownInput
        }
    } else if name_is(path, 0, "dynamodb") {
        if path.len() <= 1 {
            Route::MissingSubcommand
        } else if name_is(path, 1, "tables") {
            leaf(path, 2, "list", Route::DynamoDbTablesList)
        } else if name_is(path, 1, "table") {
            leaf(path, 2, "describe", Route::DynamoDbTableDescribe)
        } else {
            Route::UnknownInput
        }
    } else if name_is(path, 0, "redshift") {
        if path.len() <= 1 {
            Route::MissingSubcommand
        } else if name_is(path, 1, "cluster") {
            leaf(path, 2, "describe", Route::RedshiftClusterDescribe)
        } else if name_is(path, 1, "events") {
            leaf(path, 2, "describe", Route::RedshiftEventsDescribe)
        } else {
            Route::UnknownInput
        }
    } else if name_is(path, 0, "resource-explorer") {
        leaf(path, 1, "search", Route::ResourceExplorerSearch)
    } else if name_is(path, 0, "cost-explorer") {
        leaf(path, 1, "get-cost-and-usage", Route::CostExplorerGetCostAndUsage)
    } else if name_is(path, 0, "docdb") {
        leaf2(
            path,
            1,
            "describe-clusters",
            Route::DocDbDescribeClusters,
            "describe-cluster",
            Route::DocDbDescribeCluster,
        )
    } else if name_is(path, 0, "bedrock") {
        if path.len() <= 1 {
            Route::MissingSubcommand
        } else if name_is(path, 1, "mgmt") {
            leaf(path, 2, "list-foundational-models", Route::BedrockListFoundationalModels)
        } else if name_is(path, 1, "runtime") {
            leaf(path, 2, "invoke-prompt", Route::BedrockInvokePrompt)
        } else {
            Route::UnknownInput
        }
    } else if name_is(path, 0, "sso") {
        if path.len() <= 1 {
            Route::MissingSubcommand
        } else if name_is(path, 1, "oidc") {
            leaf(path, 2, "configure", Route::SsoOidcConfigure)
        } else {
            Route::UnknownInput
        }
    } else {
        Route::FaultyInput
    }
}

/// The path begins with the subcommands `names`.
pub open spec fn path_begins(p: Seq<Seq<char>>, names: Seq<Seq<char>>) -> bool {
    names.len() <= p.len() && forall|i: int| 0 <= i < names.len() ==> #[trigger] p[i] == names[i]
}

/// Every action is reached by its own subcommand path, named after its
/// service, group and action, whatever follows it; no path routes anywhere
/// when it is empty.
pub proof fn lemma_route_leaf_paths(p: Seq<Seq<char>>)
    ensures
        p.len() == 0 ==> route_spec(p) == Route::FaultyInput,
        path_begins(p, seq!["glue"@, "job"@, "runs"@, "list"@]) ==> route_spec(p) == Route::GlueJobRunsList,
        path_begins(p, seq!["glue"@, "job"@, "list"@]) ==> route_spec(p) == Route::GlueJobList,
        path_begins(p, seq!["glue"@, "job"@, "bookmark"@]) ==> route_spec(p) == Route::GlueJobBookmark,
        path_begins(p, seq!["glue"@, "databases"@, "list"@]) ==> route_spec(p) == Route::GlueDatabasesList,
        path_begins(p, seq!["glue"@, "table"@, "list"@]) ==> route_spec(p) == Route::GlueTableList,
        path_begins(p, seq!["rds"@, "instances"@]) ==> route_spec(p) == Route::RdsInstances,
        path_begins(p, seq!["s3"@, "bucket"@, "list"@]) ==> route_spec(p) == Route::S3BucketList,
        path_begins(p, seq!["s3"@, "objects"@, "list"@]) ==> route_spec(p) == Route::S3ObjectsList,
        path_begins(p, seq!["s3"@, "objects"@, "versions"@]) ==> route_spec(p) == Route::S3ObjectsVersions,
        path_begins(p, seq!["dynamodb"@, "tables"@, "list"@]) ==> route_spec(p) == Route::DynamoDbTablesList,
        path_begins(p, seq!["dynamodb"@, "table"@, "describe"@]) ==> route_spec(p) == Route::DynamoDbTableDescribe,
        path_begins(p, seq!["redshift"@, "cluster"@, "describe"@]) ==> route_spec(p) == Route::RedshiftClusterDescribe,
        path_begins(p, seq!["redshift"@, "events"@, "describe"@]) ==> route_spec(p) == Route::RedshiftEventsDescribe,
        path_begins(p, seq!["resource-explorer"@, "search"@]) ==> route_spec(p) == Route::ResourceExplorerSearch,
        path_begins(p, seq!["cost-explorer"@, "get-cost-and-usage"@]) ==> route_spec(p) == Route::CostExplorerGetCostAndUsage,
        path_begins(p, seq!["docdb"@, "describe-clusters"@]) ==> route_spec(p) == Route::DocDbDescribeClusters,
        path_begins(p, seq!["docdb"@, "describe-cluster"@]) ==> route_spec(p) == Route::DocDbDescribeCluster,
        path_begins(p, seq!["bedrock"@, "mgmt"@, "list-foundational-models"@]) ==> route_spec(p) == Route::BedrockListFoundationalModels,
        path_begins(p, seq!["bedrock"@, "runtime"@, "invoke-prompt"@]) ==> route_spec(p) == Route::BedrockInvokePrompt,
        path_begins(p, seq!["sso"@, "oidc"@, "configure"@]) ==> route_spec(p) == Route::SsoOidcConfigure,
{
    reveal_strlit("bedrock");
    reveal_strlit("bookmark");
    reveal_strlit("bucket");
    reveal_strlit("cluster");
    reveal_strlit("configure");
    reveal_strlit("cost-explorer");
    reveal_strlit("databases");
    reveal_strlit("describe");
    reveal_strlit("describe-cluster");
    reveal_strlit("describe-clusters");
    reveal_strlit("docdb");
    reveal_strlit("dynamodb");
    reveal_strlit("events");
    reveal_strlit("get-cost-and-usage");
    reveal_strlit("glue");
    reveal_strlit("instances");
    reveal_strlit("invoke-prompt");
    reveal_strlit("job");
    reveal_strlit("list");
    reveal_strlit("list-foundational-models");
    reveal_strlit("mgmt");
    reveal_strlit("objects");
    reveal_strlit("oidc");
    reveal_strlit("rds");
    reveal_strlit("redshift");
    reveal_strlit("resource-explorer");
    reveal_strlit("runs");
    reveal_strlit("runtime");
    reveal_strlit("search");
    reveal_strlit("sso");
    reveal_strlit("table");
    reveal_strlit("tables");
    reveal_strlit("versions");
    reveal_strlit("s3");
    assert("bedrock"@.len() == 7 && "bedrock"@[0] == 'b');
    assert("bookmark"@.len() == 8 && "bookmark"@[0] == 'b');
    assert("bucket"@.len() == 6 && "bucket"@[0] == 'b');
    assert("cluster"@.len() == 7 && "cluster"@[0] == 'c');
    assert("configure"@.len() == 9 && "configure"@[0] == 'c');
    assert("cost-explorer"@.len() == 13 && "cost-explorer"@[0] == 'c');
    assert("databases"@.len() == 9 && "databases"@[0] == 'd');
    assert("describe"@.len() == 8 && "describe"@[0] == 'd');
    assert("describe-cluster"@.len() == 16 && "describe-cluster"@[0] == 'd');
    assert("describe-clusters"@.len() == 17 && "describe-clusters"@[0] == 'd');
    assert("docdb"@.len() == 5 && "docdb"@[0] == 'd');
    assert("dynamodb"@.len() == 8 && "dynamodb"@[0] == 'd');
    assert("events"@.len() == 6 && "events"@[0] == 'e');
    assert("get-cost-and-usage"@.len() == 18 && "get-cost-and-usage"@[0] == 'g');
    assert("glue"@.len() == 4 && "glue"@[0] == 'g');
    assert("instances"@.len() == 9 && "instances"@[0] == 'i');
    assert("invoke-prompt"@.len() == 13 && "invoke-prompt"@[0] == 'i');
    assert("job"@.len() == 3 && "job"@[0] == 'j');
    assert("list"@.len() == 4 && "list"@[0] == 'l');
    assert("list-foundational-models"@.len() == 24 && "list-foundational-models"@[0] == 'l');
    assert("mgmt"@.len() == 4 && "mgmt"@[0] == 'm');
    assert("objects"@.len() == 7 && "objects"@[0] == 'o');
    assert("oidc"@.len() == 4 && "oidc"@[0] == 'o');
    assert("rds"@.len() == 3 && "rds"@[0] == 'r');
    assert("redshift"@.len() == 8 && "redshift"@[0] == 'r');
    assert("resource-explorer"@.len() == 17 && "resource-explorer"@[0] == 'r');
    assert("runs"@.len() == 4 && "runs"@[0] == 'r');
    assert("runtime"@.len() == 7 && "runtime"@[0] == 'r');
    assert("search"@.len() == 6 && "search"@[0] == 's');
    assert("sso"@.len() == 3 && "sso"@[0] == 's');
    assert("table"@.len() == 5 && "table"@[0] == 't');
    assert("tables"@.len() == 6 && "tables"@[0] == 't');
    assert("versions"@.len() == 8 && "versions"@[0] == 'v');
    assert("s3"@.len() == 2 && "s3"@[0] == 's');
}

} // verus!

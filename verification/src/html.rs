//! HTML fragments describing service status, handed to the rendering layer.
//!
//! Each value names the swap targets a viewer patches — an element id, tag
//! and class, and the fragment's content — plus the connection chip's class
//! and text. The surrounding application wraps these into its event stream;
//! nothing here performs I/O.

use vstd::prelude::*;

use crate::docker::{is_running_spec, DockerServiceEntry, DockerServiceEntryView};
use crate::service::{Service, ServiceView};
use crate::status::{
    db_error_message, error_message, status_label, DBError, DBErrorView, ServiceError,
    ServiceErrorView, ServiceStatus, ServiceStatusView,
};
use crate::text::{i64_to_string, int_str};

verus! {

/// One swap target: the element a viewer replaces, by id, with the given
/// content and optional class.
pub struct HTMLTarget {
    pub id: String,
    pub element: String,
    pub class: Option<String>,
    pub html_content: String,
}

/// Mathematical model of an `HTMLTarget`.
pub struct HTMLTargetView {
    pub id: Seq<char>,
    pub element: Seq<char>,
    pub class: Option<Seq<char>>,
    pub html_content: Seq<char>,
}

impl View for HTMLTarget {
    type V = HTMLTargetView;

    open spec fn view(&self) -> HTMLTargetView {
        HTMLTargetView {
            id: self.id@,
            element: self.element@,
            class: match self.class {
                Option::Some(c) => Option::Some(c@),
                Option::None => Option::None,
            },
            html_content: self.html_content@,
        }
    }
}

/// A status fragment: the connection chip's class and text, and the swap
/// targets to patch.
pub struct ServiceHTML {
    pub status_class: String,
    pub status_string: String,
    pub html_targets: Vec<HTMLTarget>,
}

/// Mathematical model of a `ServiceHTML`.
pub struct ServiceHTMLView {
    pub status_class: Seq<char>,
    pub status_string: Seq<char>,
    pub html_targets: Seq<HTMLTargetView>,
}

impl View for ServiceHTML {
    type V = ServiceHTMLView;

    open spec fn view(&self) -> ServiceHTMLView {
        ServiceHTMLView {
            status_class: self.status_class@,
            status_string: self.status_string@,
            html_targets: self.html_targets@.map_values(|t: HTMLTarget| t@),
        }
    }
}

/// The chip class for the whole application: errors dominate, in-flight
/// steps warn, a settled state is a success.
pub open spec fn app_status_class_spec(s: ServiceStatusView) -> Seq<char> {
    match s {
        ServiceStatusView::Unknown => "unknown"@,
        ServiceStatusView::Running => "success"@,
        ServiceStatusView::Inactive => "success"@,
        ServiceStatusView::DiscoveryFailed => "error"@,
        ServiceStatusView::CommandFailed(_) => "error"@,
        ServiceStatusView::CloneOrPullFailed => "error"@,
        _ => "warning"@,
    }
}

/// The chip text for the whole application.
pub open spec fn app_status_name_spec(s: ServiceStatusView) -> Seq<char> {
    match s {
        ServiceStatusView::Unknown => "Service unknown"@,
        ServiceStatusView::DiscoveryFailed => "Service failure"@,
        ServiceStatusView::CommandFailed(_) => "Service failure"@,
        ServiceStatusView::CloneOrPullFailed => "Service failure"@,
        ServiceStatusView::Cloning => "Service pending..."@,
        ServiceStatusView::Pulling => "Service pending..."@,
        ServiceStatusView::Stopping => "Service pending..."@,
        ServiceStatusView::Starting => "Service pending..."@,
        ServiceStatusView::Copying => "Service pending..."@,
        ServiceStatusView::DeploymentRequested => "Service pending..."@,
        _ => "Connected"@,
    }
}

/// The chip class for one service's own status cell.
pub open spec fn service_class_name_spec(s: ServiceStatusView) -> Seq<char> {
    match s {
        ServiceStatusView::Unknown => "unknown"@,
        ServiceStatusView::Inactive => "unknown"@,
        ServiceStatusView::Running => "success"@,
        ServiceStatusView::DiscoveryFailed => "error"@,
        ServiceStatusView::CommandFailed(_) => "error"@,
        ServiceStatusView::CloneOrPullFailed => "error"@,
        _ => "warning"@,
    }
}

/// The chip class for the whole application, per status.
pub fn app_status_class(status: &ServiceStatus) -> (r: String)
    ensures
        r@ == app_status_class_spec(status@),
{
    match status {
        ServiceStatus::Unknown => String::from_str("unknown"),
        ServiceStatus::Running => String::from_str("success"),
        ServiceStatus::Inactive => String::from_str("success"),
        ServiceStatus::DiscoveryFailed => String::from_str("error"),
        ServiceStatus::CommandFailed(_) => String::from_str("error"),
        ServiceStatus::CloneOrPullFailed => String::from_str("error"),
        _ => String::from_str("warning"),
    }
}

/// The chip text for the whole application, per status.
pub fn app_status_name(status: &ServiceStatus) -> (r: String)
    ensures
        r@ == app_status_name_spec(status@),
{
    match status {
        ServiceStatus::Unknown => String::from_str("Service unknown"),
        ServiceStatus::DiscoveryFailed => String::from_str("Service failure"),
        ServiceStatus::CommandFailed(_) => String::from_str("Service failure"),
        ServiceStatus::CloneOrPullFailed => String::from_str("Service failure"),
        ServiceStatus::Cloning => String::from_str("Service pending..."),
        ServiceStatus::Pulling => String::from_str("Service pending..."),
        ServiceStatus::Stopping => String::from_str("Service pending..."),
        ServiceStatus::Starting => String::from_str("Service pending..."),
        ServiceStatus::Copying => String::from_str("Service pending..."),
        ServiceStatus::DeploymentRequested => String::from_str("Service pending..."),
        _ => String::from_str("Connected"),
    }
}

/// The chip class for one service's own status cell, per status.
pub fn service_class_name(status: &ServiceStatus) -> (r: String)
    ensures
        r@ == service_class_name_spec(status@),
{
    match status {
        ServiceStatus::Unknown => String::from_str("unknown"),
        ServiceStatus::Inactive => String::from_str("unknown"),
        ServiceStatus::Running => String::from_str("success"),
        ServiceStatus::DiscoveryFailed => String::from_str("error"),
        ServiceStatus::CommandFailed(_) => String::from_str("error"),
        ServiceStatus::CloneOrPullFailed => String::from_str("error"),
        _ => String::from_str("warning"),
    }
}

/// The label shown inside one service's status cell.
pub fn service_status_name(status: &ServiceStatus) -> (r: String)
    ensures
        r@ == status_label(status@),
{
    status.duplicate().to_string()
}

/// The rendering of a boolean, as the active flag is shown.
pub open spec fn bool_text(b: bool) -> Seq<char> {
    if b {
        "true"@
    } else {
        "false"@
    }
}

/// One row of the services table, with the service's live status cell.
pub open spec fn row_ok_spec(sv: ServiceView, running: bool) -> Seq<char> {
    "\n                            <tr>\n                                <td>"@
        + int_str(sv.id) + "</td>\n                                <td>"@ + sv.name
        + "</td>\n                                <td>"@ + sv.repo_url
        + "</td>\n                                <td>"@ + sv.access_url
        + "</td>\n                                <td>"@ + bool_text(sv.active)
        + "</td>\n                                <td id=\"service-"@ + int_str(sv.id)
        + "-status\" class=\""@ + (if running {
        "success"@
    } else {
        "unknown"@
    }) + "-chip\">"@ + (if running {
        "Running"@
    } else {
        "Inactive"@
    }) + "</td>\n                            </tr>\n                        "@
}

/// One row of the services table when container status is unknown.
pub open spec fn row_unknown_spec(sv: ServiceView) -> Seq<char> {
    "\n                            <tr>\n                                <td>"@
        + int_str(sv.id) + "</td>\n                                <td>"@ + sv.name
        + "</td>\n                                <td>"@ + sv.repo_url
        + "</td>\n                                <td>"@ + sv.access_url
        + "</td>\n                                <td>"@ + bool_text(sv.active)
        + "</td>\n                                <td id=\"service-"@ + int_str(sv.id)
        + "-status\" class=\"unknown-chip\">"@ + "Unknown status"@
        + "</td>\n                            </tr>\n                        "@
}

/// All rows, correlated against the container listing.
pub open spec fn rows_ok_spec(
    list: Seq<ServiceView>,
    docker: Seq<DockerServiceEntryView>,
) -> Seq<char>
    decreases list.len(),
{
    if list.len() == 0 {
        Seq::empty()
    } else {
        row_ok_spec(list[0], is_running_spec(list[0].name, docker)) + rows_ok_spec(
            list.drop_first(),
            docker,
        )
    }
}

/// All rows when container status is unknown.
pub open spec fn rows_unknown_spec(list: Seq<ServiceView>) -> Seq<char>
    decreases list.len(),
{
    if list.len() == 0 {
        Seq::empty()
    } else {
        row_unknown_spec(list[0]) + rows_unknown_spec(list.drop_first())
    }
}

/// The services table's header.
pub open spec fn table_header() -> Seq<char> {
    "\n                        <tr>\n                            <th>ID</th>\n                            <th>Name</th>\n                            <th>Repo</th>\n                            <th>URL</th>\n                            <th>Active</th>\n                            <th>Status</th>\n                        </tr>\n                        "@
}

/// The whole services-list fragment: the table with live statuses on
/// success; the table with unknown statuses and an error row when discovery
/// failed; one error row when the store failed.
pub open spec fn list_spec(
    db: Result<Seq<ServiceView>, DBErrorView>,
    docker: Result<Seq<DockerServiceEntryView>, ServiceErrorView>,
) -> ServiceHTMLView {
    match db {
        Result::Ok(dbl) => match docker {
            Result::Ok(dkl) => ServiceHTMLView {
                status_class: "success"@,
                status_string: "Services found"@,
                html_targets: seq![
                    HTMLTargetView {
                        id: "services-list"@,
                        element: "table"@,
                        class: Option::None,
                        html_content: table_header() + rows_ok_spec(dbl, dkl),
                    },
                ],
            },
            Result::Err(e) => ServiceHTMLView {
                status_class: "warning"@,
                status_string: "Services status unknown"@,
                html_targets: seq![
                    HTMLTargetView {
                        id: "services-list"@,
                        element: "table"@,
                        class: Option::None,
                        html_content: table_header() + rows_unknown_spec(dbl)
                            + "\n                        <tr><td colspan=\"6\" class=\"error-chip\">"@
                            + error_message(e) + "</td></tr>"@,
                    },
                ],
            },
        },
        Result::Err(e) => ServiceHTMLView {
            status_class: "error"@,
            status_string: "Database error"@,
            html_targets: seq![
                HTMLTargetView {
                    id: "services-list"@,
                    element: "table"@,
                    class: Option::None,
                    html_content: "\n                    <tr><td class=\"error-chip\">Unable to retrieve services from database. | "@
                        + db_error_message(e) + " </td></tr>\n                "@,
                },
            ],
        },
    }
}

/// The model of a fetched service list.
pub open spec fn db_list_view(r: Result<Vec<Service>, DBError>) -> Result<
    Seq<ServiceView>,
    DBErrorView,
> {
    match r {
        Result::Ok(v) => Result::Ok(v@.map_values(|s: Service| s@)),
        Result::Err(e) => Result::Err(e@),
    }
}

/// The model of a discovered container list.
pub open spec fn docker_list_view(r: Result<Vec<DockerServiceEntry>, ServiceError>) -> Result<
    Seq<DockerServiceEntryView>,
    ServiceErrorView,
> {
    match r {
        Result::Ok(v) => Result::Ok(v@.map_values(|e: DockerServiceEntry| e@)),
        Result::Err(e) => Result::Err(e@),
    }
}

/// Builds one live-status row.
fn row_ok(sv: &Service, running: bool) -> (r: String)
    ensures
        r@ == row_ok_spec(sv@, running),
{
    let idtext = i64_to_string(sv.id);
    let mut s = String::from_str(
        "\n                            <tr>\n                                <td>",
    );
    s.append(idtext.as_str());
    s.append("</td>\n                                <td>");
    s.append(sv.name.as_str());
    s.append("</td>\n                                <td>");
    s.append(sv.repo_url.as_str());
    s.append("</td>\n                                <td>");
    s.append(sv.access_url.as_str());
    s.append("</td>\n                                <td>");
    s.append(if sv.active { "true" } else { "false" });
    s.append("</td>\n                                <td id=\"service-");
    s.append(idtext.as_str());
    s.append("-status\" class=\"");
    s.append(if running { "success" } else { "unknown" });
    s.append("-chip\">");
    s.append(if running { "Running" } else { "Inactive" });
    s.append("</td>\n                            </tr>\n                        ");
    s
}

/// Builds one unknown-status row.
fn row_unknown(sv: &Service) -> (r: String)
    ensures
        r@ == row_unknown_spec(sv@),
{
    let idtext = i64_to_string(sv.id);
    let mut s = String::from_str(
        "\n                            <tr>\n                                <td>",
    );
    s.append(idtext.as_str());
    s.append("</td>\n                                <td>");
    s.append(sv.name.as_str());
    s.append("</td>\n                                <td>");
    s.append(sv.repo_url.as_str());
    s.append("</td>\n                                <td>");
    s.append(sv.access_url.as_str());
    s.append("</td>\n                                <td>");
    s.append(if sv.active { "true" } else { "false" });
    s.append("</td>\n                                <td id=\"service-");
    s.append(idtext.as_str());
    s.append("-status\" class=\"unknown-chip\">");
    s.append("Unknown status");
    s.append("</td>\n                            </tr>\n                        ");
    s
}

/// Builds all live-status rows.
fn rows_ok(list: &Vec<Service>, docker: &Vec<DockerServiceEntry>) -> (r: String)
    ensures
        r@ == rows_ok_spec(
            list@.map_values(|s: Service| s@),
            docker@.map_values(|e: DockerServiceEntry| e@),
        ),
{
    let ghost views = list@.map_values(|s: Service| s@);
    let ghost dviews = docker@.map_values(|e: DockerServiceEntry| e@);
    let mut s = String::new();
    proof {
        assert(views.skip(0) =~= views);
        assert(s@ + rows_ok_spec(views, dviews) =~= rows_ok_spec(views, dviews));
    }
    let mut i: usize = 0;
    while i < list.len()
        invariant
            i <= list.len(),
            views == list@.map_values(|s: Service| s@),
            dviews == docker@.map_values(|e: DockerServiceEntry| e@),
            s@ + rows_ok_spec(views.skip(i as int), dviews) == rows_ok_spec(views, dviews),
        decreases list.len() - i,
    {
        let ghost before = s@;
        let running = list[i].is_running(docker);
        let row = row_ok(&list[i], running);
        s.append(row.as_str());
        proof {
            assert(views.skip(i as int)[0] == views[i as int]);
            assert(views.skip(i as int).drop_first() =~= views.skip(i as int + 1));
            assert(s@ + rows_ok_spec(views.skip(i as int + 1), dviews) =~= before
                + rows_ok_spec(views.skip(i as int), dviews));
        }
        i += 1;
    }
    proof {
        assert(views.skip(list@.len() as int) =~= Seq::<ServiceView>::empty());
        assert(s@ + rows_ok_spec(views.skip(list@.len() as int), dviews) =~= s@);
    }
    s
}

/// Builds all unknown-status rows.
fn rows_unknown(list: &Vec<Service>) -> (r: String)
    ensures
        r@ == rows_unknown_spec(list@.map_values(|s: Service| s@)),
{
    let ghost views = list@.map_values(|s: Service| s@);
    let mut s = String::new();
    proof {
        assert(views.skip(0) =~= views);
        assert(s@ + rows_unknown_spec(views) =~= rows_unknown_spec(views));
    }
    let mut i: usize = 0;
    while i < list.len()
        invariant
            i <= list.len(),
            views == list@.map_values(|s: Service| s@),
            s@ + rows_unknown_spec(views.skip(i as int)) == rows_unknown_spec(views),
        decreases list.len() - i,
    {
        let ghost before = s@;
        let row = row_unknown(&list[i]);
        s.append(row.as_str());
        proof {
            assert(views.skip(i as int)[0] == views[i as int]);
            assert(views.skip(i as int).drop_first() =~= views.skip(i as int + 1));
            assert(s@ + rows_unknown_spec(views.skip(i as int + 1)) =~= before
                + rows_unknown_spec(views.skip(i as int)));
        }
        i += 1;
    }
    proof {
        assert(views.skip(list@.len() as int) =~= Seq::<ServiceView>::empty());
        assert(s@ + rows_unknown_spec(views.skip(list@.len() as int)) =~= s@);
    }
    s
}

/// The services-list fragment for the fetched services and the discovered
/// containers, as `list_spec` says.
pub fn list(
    db_list: Result<Vec<Service>, DBError>,
    docker_list: Result<Vec<DockerServiceEntry>, ServiceError>,
) -> (r: ServiceHTML)
    ensures
        r@ == list_spec(db_list_view(db_list), docker_list_view(docker_list)),
{
    match db_list {
        Result::Ok(dbl) => match docker_list {
            Result::Ok(dkl) => {
                let mut content = String::from_str(
                    "\n                        <tr>\n                            <th>ID</th>\n                            <th>Name</th>\n                            <th>Repo</th>\n                            <th>URL</th>\n                            <th>Active</th>\n                            <th>Status</th>\n                        </tr>\n                        ",
                );
                let rows = rows_ok(&dbl, &dkl);
                content.append(rows.as_str());
                let mut targets: Vec<HTMLTarget> = Vec::new();
                targets.push(
                    HTMLTarget {
                        id: String::from_str("services-list"),
                        element: String::from_str("table"),
                        class: Option::None,
                        html_content: content,
                    },
                );
                let r = ServiceHTML {
                    status_class: String::from_str("success"),
                    status_string: String::from_str("Services found"),
                    html_targets: targets,
                };
                proof {
                    assert(r@.html_targets =~= list_spec(
                        db_list_view(db_list),
                        docker_list_view(docker_list),
                    ).html_targets);
                }
                r
            },
            Result::Err(e) => {
                let mut content = String::from_str(
                    "\n                        <tr>\n                            <th>ID</th>\n                            <th>Name</th>\n                            <th>Repo</th>\n                            <th>URL</th>\n                            <th>Active</th>\n                            <th>Status</th>\n                        </tr>\n                        ",
                );
                let rows = rows_unknown(&dbl);
                content.append(rows.as_str());
                content.append(
                    "\n                        <tr><td colspan=\"6\" class=\"error-chip\">",
                );
                let msg = e.message();
                content.append(msg.as_str());
                content.append("</td></tr>");
                let mut targets: Vec<HTMLTarget> = Vec::new();
                targets.push(
                    HTMLTarget {
                        id: String::from_str("services-list"),
                        element: String::from_str("table"),
                        class: Option::None,
                        html_content: content,
                    },
                );
                let r = ServiceHTML {
                    status_class: String::from_str("warning"),
                    status_string: String::from_str("Services status unknown"),
                    html_targets: targets,
                };
                proof {
                    assert(r@.html_targets =~= list_spec(
                        db_list_view(db_list),
                        docker_list_view(docker_list),
                    ).html_targets);
                }
                r
            },
        },
        Result::Err(e) => {
            let mut content = String::from_str(
                "\n                    <tr><td class=\"error-chip\">Unable to retrieve services from database. | ",
            );
            let msg = e.message();
            content.append(msg.as_str());
            content.append(" </td></tr>\n                ");
            let mut targets: Vec<HTMLTarget> = Vec::new();
            targets.push(
                HTMLTarget {
                    id: String::from_str("services-list"),
                    element: String::from_str("table"),
                    class: Option::None,
                    html_content: content,
                },
            );
            let r = ServiceHTML {
                status_class: String::from_str("error"),
                status_string: String::from_str("Database error"),
                html_targets: targets,
            };
            proof {
                assert(r@.html_targets =~= list_spec(
                    db_list_view(db_list),
                    docker_list_view(docker_list),
                ).html_targets);
            }
            r
        },
    }
}

/// The fragment patching one service's status cell, as `service_spec` says.
pub open spec fn service_spec(
    service: Result<ServiceView, DBErrorView>,
    status: ServiceStatusView,
) -> ServiceHTMLView {
    match service {
        Result::Ok(sv) => ServiceHTMLView {
            status_class: app_status_class_spec(status),
            status_string: app_status_name_spec(status),
            html_targets: seq![
                HTMLTargetView {
                    id: "service-"@ + int_str(sv.id) + "-status"@,
                    element: "div"@,
                    class: Option::Some(service_class_name_spec(status)),
                    html_content: status_label(status),
                },
            ],
        },
        Result::Err(e) => ServiceHTMLView {
            status_class: "error"@,
            status_string: "Unknown service error"@,
            html_targets: seq![
                HTMLTargetView {
                    id: "app-message"@,
                    element: "div"@,
                    class: Option::Some("error"@),
                    html_content: "Unable to access service from the database | "@
                        + db_error_message(e),
                },
            ],
        },
    }
}

/// The model of a fetched service.
pub open spec fn db_service_view(r: Result<Service, DBError>) -> Result<
    ServiceView,
    DBErrorView,
> {
    match r {
        Result::Ok(s) => Result::Ok(s@),
        Result::Err(e) => Result::Err(e@),
    }
}

/// The fragment patching one service's status cell after a status update.
pub fn service(fetched: Result<Service, DBError>, status: ServiceStatus) -> (r: ServiceHTML)
    ensures
        r@ == service_spec(db_service_view(fetched), status@),
{
    match fetched {
        Result::Ok(serv) => {
            let mut id = String::from_str("service-");
            let idtext = i64_to_string(serv.id);
            id.append(idtext.as_str());
            id.append("-status");
            let mut targets: Vec<HTMLTarget> = Vec::new();
            targets.push(
                HTMLTarget {
                    id,
                    element: String::from_str("div"),
                    class: Option::Some(service_class_name(&status)),
                    html_content: service_status_name(&status),
                },
            );
            let r = ServiceHTML {
                status_class: app_status_class(&status),
                status_string: app_status_name(&status),
                html_targets: targets,
            };
            proof {
                assert(r@.html_targets =~= service_spec(
                    db_service_view(fetched),
                    status@,
                ).html_targets);
            }
            r
        },
        Result::Err(e) => {
            let mut content = String::from_str("Unable to access service from the database | ");
            let msg = e.message();
            content.append(msg.as_str());
            let mut targets: Vec<HTMLTarget> = Vec::new();
            targets.push(
                HTMLTarget {
                    id: String::from_str("app-message"),
                    element: String::from_str("div"),
                    class: Option::Some(String::from_str("error")),
                    html_content: content,
                },
            );
            let r = ServiceHTML {
                status_class: String::from_str("error"),
                status_string: String::from_str("Unknown service error"),
                html_targets: targets,
            };
            proof {
                assert(r@.html_targets =~= service_spec(
                    db_service_view(fetched),
                    status@,
                ).html_targets);
            }
            r
        },
    }
}

/// The fragment reporting an unstructured error, as `unknown_spec` says.
pub open spec fn unknown_spec(msg: Seq<char>) -> ServiceHTMLView {
    ServiceHTMLView {
        status_class: "error"@,
        status_string: "Unknown error"@,
        html_targets: seq![
            HTMLTargetView {
                id: "app-message"@,
                element: "div"@,
                class: Option::Some("error"@),
                html_content: msg,
            },
        ],
    }
}

/// The fragment reporting an unstructured error message.
pub fn unknown(msg: String) -> (r: ServiceHTML)
    ensures
        r@ == unknown_spec(msg@),
{
    let mut targets: Vec<HTMLTarget> = Vec::new();
    targets.push(
        HTMLTarget {
            id: String::from_str("app-message"),
            element: String::from_str("div"),
            class: Option::Some(String::from_str("error")),
            html_content: msg,
        },
    );
    let r = ServiceHTML {
        status_class: String::from_str("error"),
        status_string: String::from_str("Unknown error"),
        html_targets: targets,
    };
    proof {
        assert(r@.html_targets =~= unknown_spec(msg@).html_targets);
    }
    r
}

} // verus!
